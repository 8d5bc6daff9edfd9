use keepasshttp::codec::{b64_decode, b64_encode, encode_then_decode, utf8_lossy};
use keepasshttp::crypto::{decrypt, encrypt, encrypt_then_decrypt, generate_key, generate_nonce};
use keepasshttp::entries::RawEntry;
use keepasshttp::errors::Error;
use keepasshttp::messages::{
    AssociateRequest, AssociateResponse, Config, GetLoginsRequest, GetLoginsResponse,
    TestAssociateRequest, TestAssociateResponse, make_verifier,
};
use keepasshttp::protocol::{
    Transport, associate, associate_outcome, get_logins, handle_get_logins_response,
    test_associate,
};

fn demo_key() -> Vec<u8> {
    (0u8..32).collect()
}

fn demo_nonce() -> Vec<u8> {
    (100u8..116).collect()
}

fn demo_config() -> Config {
    Config { key: b64_encode(&demo_key()), id: "client-1".to_string() }
}

fn encrypted_field(plain: &str, key: &[u8], iv: &[u8]) -> String {
    b64_encode(&encrypt(plain.as_bytes(), key, iv).unwrap())
}

// ---- codec ----

#[test]
fn codec_known_value() {
    assert_eq!(b64_encode(b"hello"), "aGVsbG8=");
    assert_eq!(b64_decode("aGVsbG8=").unwrap(), b"hello");
}

#[test]
fn codec_round_trip_empty() {
    assert_eq!(b64_encode(b""), "");
    assert_eq!(encode_then_decode(b""), Vec::<u8>::new());
}

#[test]
fn codec_round_trip_all_byte_values() {
    let bytes: Vec<u8> = (0u8..=255).collect();
    assert_eq!(encode_then_decode(&bytes), bytes);
}

#[test]
fn codec_rejects_malformed_text() {
    assert_eq!(b64_decode("!!!"), Err(Error::DecodeError));
    assert_eq!(b64_decode("a"), Err(Error::DecodeError));
}

// ---- cipher ----

#[test]
fn cipher_round_trip() {
    let key = demo_key();
    let iv = demo_nonce();
    let plain = b"attack at dawn";
    let ct = encrypt(plain, &key, &iv).unwrap();
    assert_ne!(ct.as_slice(), plain.as_slice());
    assert_eq!(ct.len(), 16);
    assert_eq!(decrypt(&ct, &key, &iv).unwrap(), plain);
    assert_eq!(encrypt_then_decrypt(plain, &key, &iv), plain);
}

#[test]
fn cipher_round_trip_empty_and_block_sized() {
    let key = demo_key();
    let iv = demo_nonce();
    let empty: &[u8] = b"";
    let ct = encrypt(empty, &key, &iv).unwrap();
    assert_eq!(ct.len(), 16);
    assert_eq!(decrypt(&ct, &key, &iv).unwrap(), empty);
    let block = [7u8; 16];
    let ct2 = encrypt(&block, &key, &iv).unwrap();
    assert_eq!(ct2.len(), 32);
    assert_eq!(decrypt(&ct2, &key, &iv).unwrap(), block.to_vec());
}

#[test]
fn cipher_rejects_bad_lengths() {
    let key = demo_key();
    let iv = demo_nonce();
    assert_eq!(encrypt(b"x", &key[..31], &iv), Err(Error::CryptoError));
    assert_eq!(encrypt(b"x", &key, &iv[..15]), Err(Error::CryptoError));
    assert_eq!(decrypt(b"short", &key, &iv), Err(Error::CryptoError));
    assert_eq!(decrypt(&[0u8; 17], &key, &iv), Err(Error::CryptoError));
}

#[test]
fn cipher_rejects_bad_padding() {
    let key = demo_key();
    let iv = demo_nonce();
    // 16 bytes of 'A': dropping the padding block leaves a final block whose
    // last plaintext byte is 0x41, which is no valid padding.
    let ct = encrypt(&[0x41u8; 16], &key, &iv).unwrap();
    assert_eq!(ct.len(), 32);
    assert_eq!(decrypt(&ct[..16], &key, &iv), Err(Error::CryptoError));
}

#[test]
fn cipher_different_nonces_differ() {
    let key = demo_key();
    let iv1 = [1u8; 16];
    let iv2 = [2u8; 16];
    let plain = b"same plaintext";
    assert_ne!(encrypt(plain, &key, &iv1).unwrap(), encrypt(plain, &key, &iv2).unwrap());
}

// ---- nonce and key generation ----

#[test]
fn nonces_are_fresh() {
    let a = generate_nonce();
    let b = generate_nonce();
    assert_eq!(a.len(), 16);
    assert_eq!(b.len(), 16);
    assert_ne!(a, b);
}

#[test]
fn keys_are_fresh() {
    let a = generate_key();
    let b = generate_key();
    assert_eq!(a.len(), 32);
    assert_ne!(a, b);
}

// ---- verifier ----

#[test]
fn verifier_is_deterministic() {
    let key = demo_key();
    let nonce = demo_nonce();
    assert_eq!(make_verifier(&key, &nonce), make_verifier(&key, &nonce));
}

#[test]
fn verifier_construction_shape() {
    let key = demo_key();
    let nonce = demo_nonce();
    let nonce_b64 = b64_encode(&nonce);
    let expected = b64_encode(&encrypt(nonce_b64.as_bytes(), &key, &nonce).unwrap());
    assert_eq!(make_verifier(&key, &nonce), expected);
    assert_ne!(make_verifier(&key, &nonce), nonce_b64);
}

#[test]
fn verifier_depends_on_nonce() {
    let key = demo_key();
    assert_ne!(make_verifier(&key, &[1u8; 16]), make_verifier(&key, &[2u8; 16]));
}

// ---- request building ----

#[test]
fn test_associate_request_fields() {
    let config = demo_config();
    let req = TestAssociateRequest::new(&config).unwrap();
    assert_eq!(req.request_type, "test-associate");
    assert_eq!(req.id, "client-1");
    let nonce = b64_decode(&req.nonce).unwrap();
    assert_eq!(nonce.len(), 16);
    assert_eq!(req.verifier, make_verifier(&demo_key(), &nonce));
}

#[test]
fn request_nonces_never_repeat() {
    let config = demo_config();
    let a = TestAssociateRequest::new(&config).unwrap();
    let b = TestAssociateRequest::new(&config).unwrap();
    assert_ne!(a.nonce, b.nonce);
}

#[test]
fn associate_request_fields() {
    let req = AssociateRequest::new();
    assert_eq!(req.request_type, "associate");
    let key = b64_decode(&req.key).unwrap();
    let nonce = b64_decode(&req.nonce).unwrap();
    assert_eq!(key.len(), 32);
    assert_eq!(nonce.len(), 16);
    assert_eq!(req.verifier, make_verifier(&key, &nonce));
}

#[test]
fn get_logins_request_fields() {
    let config = demo_config();
    let req = GetLoginsRequest::new(&config, "https://example.com").unwrap();
    assert_eq!(req.request_type, "get-logins");
    assert_eq!(req.id, "client-1");
    let nonce = b64_decode(&req.nonce).unwrap();
    let url_ct = b64_decode(&req.url).unwrap();
    let url_plain = decrypt(&url_ct, &demo_key(), &nonce).unwrap();
    assert_eq!(url_plain, b"https://example.com");
}

#[test]
fn building_rejects_bad_config() {
    let malformed = Config { key: "!!!".to_string(), id: "x".to_string() };
    assert!(matches!(TestAssociateRequest::new(&malformed), Err(Error::DecodeError)));
    let short = Config { key: b64_encode(b"short key"), id: "x".to_string() };
    assert!(matches!(TestAssociateRequest::new(&short), Err(Error::CryptoError)));
    assert!(matches!(GetLoginsRequest::new(&short, "u"), Err(Error::CryptoError)));
}

// ---- entry decryption ----

#[test]
fn raw_entry_decrypts_known_fields() {
    let key = demo_key();
    let response_nonce = demo_nonce();
    let raw = RawEntry {
        login: encrypted_field("alice", &key, &response_nonce),
        name: encrypted_field("example.com", &key, &response_nonce),
        password: encrypted_field("p@ss", &key, &response_nonce),
        uuid: encrypted_field("u-1", &key, &response_nonce),
    };
    let entry = raw.decrypt(&b64_encode(&key), &b64_encode(&response_nonce)).unwrap();
    assert_eq!(entry.login, "alice");
    assert_eq!(entry.name, "example.com");
    assert_eq!(entry.password, "p@ss");
    assert_eq!(entry.uuid, "u-1");
}

#[test]
fn raw_entry_tolerates_invalid_text_bytes() {
    let key = demo_key();
    let response_nonce = demo_nonce();
    let bad_text = b64_encode(&encrypt(&[0xff, 0xfe], &key, &response_nonce).unwrap());
    let ok = encrypted_field("ok", &key, &response_nonce);
    let raw = RawEntry { login: bad_text, name: ok.clone(), password: ok.clone(), uuid: ok };
    let entry = raw.decrypt(&b64_encode(&key), &b64_encode(&response_nonce)).unwrap();
    assert_eq!(entry.login, "\u{FFFD}\u{FFFD}");
}

#[test]
fn raw_entry_rejects_malformed_ciphertext() {
    let key = demo_key();
    let response_nonce = demo_nonce();
    let key_b64 = b64_encode(&key);
    let nonce_b64 = b64_encode(&response_nonce);
    let ok = encrypted_field("fine", &key, &response_nonce);

    // Wrong length: not a whole number of blocks.
    let wrong_len = RawEntry {
        login: ok.clone(),
        name: b64_encode(b"five!"),
        password: ok.clone(),
        uuid: ok.clone(),
    };
    assert!(matches!(wrong_len.decrypt(&key_b64, &nonce_b64), Err(Error::CryptoError)));

    // Bad padding: a block whose decrypted tail is no padding.
    let two_blocks = encrypt(&[0x41u8; 16], &key, &response_nonce).unwrap();
    let bad_pad = RawEntry {
        login: ok.clone(),
        name: ok.clone(),
        password: b64_encode(&two_blocks[..16]),
        uuid: ok.clone(),
    };
    assert!(matches!(bad_pad.decrypt(&key_b64, &nonce_b64), Err(Error::CryptoError)));

    // Malformed encoding fails at the codec boundary instead.
    let bad_text = RawEntry {
        login: ok.clone(),
        name: ok.clone(),
        password: ok.clone(),
        uuid: "%%%".to_string(),
    };
    assert!(matches!(bad_text.decrypt(&key_b64, &nonce_b64), Err(Error::DecodeError)));
}

// ---- fake transports ----

struct AcceptingService {
    issued_id: String,
    seen_verifier: Option<String>,
}

impl Transport for AcceptingService {
    fn test_associate(
        &mut self,
        req: &TestAssociateRequest,
    ) -> Result<TestAssociateResponse, String> {
        self.seen_verifier = Some(req.verifier.clone());
        Ok(TestAssociateResponse { success: true })
    }

    fn associate(&mut self, req: &AssociateRequest) -> Result<AssociateResponse, String> {
        self.seen_verifier = Some(req.verifier.clone());
        Ok(AssociateResponse { success: true, id: Some(self.issued_id.clone()) })
    }

    fn get_logins(&mut self, _req: &GetLoginsRequest) -> Result<GetLoginsResponse, String> {
        Err("not offered".to_string())
    }
}

struct LockedService;

impl Transport for LockedService {
    fn test_associate(
        &mut self,
        _req: &TestAssociateRequest,
    ) -> Result<TestAssociateResponse, String> {
        Ok(TestAssociateResponse { success: false })
    }

    fn associate(&mut self, _req: &AssociateRequest) -> Result<AssociateResponse, String> {
        Ok(AssociateResponse { success: false, id: None })
    }

    fn get_logins(&mut self, _req: &GetLoginsRequest) -> Result<GetLoginsResponse, String> {
        Ok(GetLoginsResponse {
            count: 0,
            entries: Vec::new(),
            success: false,
            error: Some("locked".to_string()),
            nonce: String::new(),
        })
    }
}

struct UnreachableService;

impl Transport for UnreachableService {
    fn test_associate(
        &mut self,
        _req: &TestAssociateRequest,
    ) -> Result<TestAssociateResponse, String> {
        Err("connection refused".to_string())
    }

    fn associate(&mut self, _req: &AssociateRequest) -> Result<AssociateResponse, String> {
        Err("connection refused".to_string())
    }

    fn get_logins(&mut self, _req: &GetLoginsRequest) -> Result<GetLoginsResponse, String> {
        Err("connection refused".to_string())
    }
}

/// Answers get-logins with entries encrypted under the demo key and a fixed
/// response nonce of its own choosing.
struct VaultService {
    records: Vec<(String, String, String, String)>,
}

impl Transport for VaultService {
    fn test_associate(
        &mut self,
        _req: &TestAssociateRequest,
    ) -> Result<TestAssociateResponse, String> {
        Ok(TestAssociateResponse { success: true })
    }

    fn associate(&mut self, _req: &AssociateRequest) -> Result<AssociateResponse, String> {
        Err("not offered".to_string())
    }

    fn get_logins(&mut self, _req: &GetLoginsRequest) -> Result<GetLoginsResponse, String> {
        let key = demo_key();
        let response_nonce = [9u8; 16];
        let entries: Vec<RawEntry> = self
            .records
            .iter()
            .map(|(login, name, password, uuid)| RawEntry {
                login: encrypted_field(login, &key, &response_nonce),
                name: encrypted_field(name, &key, &response_nonce),
                password: encrypted_field(password, &key, &response_nonce),
                uuid: encrypted_field(uuid, &key, &response_nonce),
            })
            .collect();
        Ok(GetLoginsResponse {
            count: entries.len() as u8,
            entries,
            success: true,
            error: None,
            nonce: b64_encode(&response_nonce),
        })
    }
}

// ---- protocol scenarios ----

#[test]
fn association_round_trip_scenario() {
    let mut service = AcceptingService { issued_id: "abc123".to_string(), seen_verifier: None };
    let config = associate(&mut service).unwrap();
    assert_eq!(config.id, "abc123");
    let key = b64_decode(&config.key).unwrap();
    assert_eq!(key.len(), 32);
    assert!(service.seen_verifier.is_some());

    // A second association generates a fresh key.
    let again = associate(&mut service).unwrap();
    assert_ne!(again.key, config.key);
}

#[test]
fn association_declined() {
    let mut service = LockedService;
    assert_eq!(associate(&mut service), Err(Error::AssociationError));
}

#[test]
fn association_unreachable() {
    let mut service = UnreachableService;
    assert_eq!(
        associate(&mut service),
        Err(Error::TransportError("connection refused".to_string()))
    );
}

#[test]
fn test_associate_reports_flag() {
    let config = demo_config();
    let mut accepting = AcceptingService { issued_id: String::new(), seen_verifier: None };
    assert_eq!(test_associate(&mut accepting, &config), Ok(true));
    let mut locked = LockedService;
    assert_eq!(test_associate(&mut locked, &config), Ok(false));
    let mut gone = UnreachableService;
    assert_eq!(
        test_associate(&mut gone, &config),
        Err(Error::TransportError("connection refused".to_string()))
    );
}

#[test]
fn get_logins_failure_scenario() {
    let config = demo_config();
    let mut service = LockedService;
    assert_eq!(
        get_logins(&mut service, &config, "https://example.com"),
        Err(Error::LookupError("locked".to_string()))
    );
}

#[test]
fn get_logins_decrypts_in_order() {
    let config = demo_config();
    let mut service = VaultService {
        records: vec![
            (
                "alice".to_string(),
                "example.com".to_string(),
                "p@ss".to_string(),
                "u-1".to_string(),
            ),
            ("bob".to_string(), "example.org".to_string(), "hunter2".to_string(), "u-2".to_string()),
        ],
    };
    let entries = get_logins(&mut service, &config, "https://example.com").unwrap();
    assert_eq!(entries.len(), 2);
    assert_eq!(entries[0].login, "alice");
    assert_eq!(entries[0].name, "example.com");
    assert_eq!(entries[0].password, "p@ss");
    assert_eq!(entries[0].uuid, "u-1");
    assert_eq!(entries[1].login, "bob");
    assert_eq!(entries[1].uuid, "u-2");
}

#[test]
fn get_logins_empty_vault() {
    let config = demo_config();
    let mut service = VaultService { records: Vec::new() };
    let entries = get_logins(&mut service, &config, "https://example.com").unwrap();
    assert!(entries.is_empty());
}

#[test]
fn handle_response_failure_without_text() {
    let config = demo_config();
    let resp = GetLoginsResponse {
        count: 0,
        entries: Vec::new(),
        success: false,
        error: None,
        nonce: String::new(),
    };
    assert_eq!(
        handle_get_logins_response(&config, &resp),
        Err(Error::LookupError(String::new()))
    );
}

#[test]
fn handle_response_rejects_malformed_entry() {
    let config = demo_config();
    let key = demo_key();
    let response_nonce = [9u8; 16];
    let good = RawEntry {
        login: encrypted_field("a", &key, &response_nonce),
        name: encrypted_field("b", &key, &response_nonce),
        password: encrypted_field("c", &key, &response_nonce),
        uuid: encrypted_field("d", &key, &response_nonce),
    };
    let mut bad = good.clone();
    bad.password = b64_encode(b"bad len");
    let resp = GetLoginsResponse {
        count: 2,
        entries: vec![good, bad],
        success: true,
        error: None,
        nonce: b64_encode(&response_nonce),
    };
    assert_eq!(handle_get_logins_response(&config, &resp), Err(Error::CryptoError));
}

#[test]
fn associate_outcome_pairs_key_and_id() {
    let req = AssociateRequest::new();
    let ok = AssociateResponse { success: true, id: Some("id-9".to_string()) };
    let config = associate_outcome(&req, &ok).unwrap();
    assert_eq!(config.key, req.key);
    assert_eq!(config.id, "id-9");
    let missing_id = AssociateResponse { success: true, id: None };
    assert_eq!(associate_outcome(&req, &missing_id), Err(Error::AssociationError));
}

#[test]
fn lossy_text_helper_replaces_invalid_sequences() {
    assert_eq!(utf8_lossy(b"plain"), "plain");
    assert_eq!(utf8_lossy(&[0xf0, 0x28]), "\u{FFFD}(");
}
