//! Message model and request building: the typed request and response shapes
//! of the three operations, the session config, and the per-request nonce and
//! verifier construction.

use vstd::prelude::*;

verus! {

use crate::codec::{b64_of, b64_decode_of, decoded_of, b64_encode, b64_decode};
use crate::crypto::{cipher_enc, encrypt, generate_nonce, generate_key};
use crate::entries::RawEntry;
use crate::errors::Error;
use vstd::string::StringSliceAdditionalSpecFns;

/// The persisted unit of an established association: the encoded credential
/// secret and the identity the service issued for it. Either both are
/// present and consistent, or the caller has no config at all.
#[derive(Debug, Clone, PartialEq, Eq)]
pub struct Config {
    /// The credential secret, encoded as text.
    pub key: String,
    /// The opaque identifier the service issued during association.
    pub id: String,
}

/// A session config is internally consistent when its stored secret decodes
/// to a 256-bit key.
pub open spec fn config_key_wf(c: Config) -> bool {
    b64_decode_of(c.key@) matches Some(k) && k.len() == 32
}

/// The secret bytes behind a session config (meaningful when well-formed).
pub open spec fn config_key(c: Config) -> Seq<u8>
    recommends
        config_key_wf(c),
{
    decoded_of(c.key@)
}

/// The error an operation raises on a config whose stored secret is
/// unusable: malformed text, or a decoded key of the wrong length.
pub open spec fn config_key_err(c: Config) -> Error {
    if b64_decode_of(c.key@) is None {
        Error::DecodeError
    } else {
        Error::CryptoError
    }
}

/// Decodes the credential secret out of a session config.
pub fn decode_config_key(config: &Config) -> (r: Result<Vec<u8>, Error>)
    ensures
        r is Ok <==> config_key_wf(*config),
        r matches Ok(k) ==> k@ == config_key(*config) && k@.len() == 32,
        r matches Err(e) ==> e == config_key_err(*config),
{
    let key = match b64_decode(config.key.as_str()) {
        Ok(k) => k,
        Err(e) => {
            return Err(e);
        },
    };
    if key.len() != 32 {
        return Err(Error::CryptoError);
    }
    Ok(key)
}

/// The verifier: the encoded text of the nonce, encrypted under the
/// credential secret with the nonce itself as initialization value, then
/// encoded again. It proves possession of the secret for this one nonce.
pub open spec fn verifier_of(key: Seq<u8>, nonce: Seq<u8>) -> Seq<char> {
    b64_of(cipher_enc(vstd::utf8::encode_utf8(b64_of(nonce)), key, nonce))
}

/// Law: verifier construction is deterministic — the same key and nonce
/// always give the same verifier.
pub proof fn lemma_verifier_deterministic(
    k1: Seq<u8>,
    n1: Seq<u8>,
    k2: Seq<u8>,
    n2: Seq<u8>,
)
    requires
        k1 == k2,
        n1 == n2,
    ensures
        verifier_of(k1, n1) == verifier_of(k2, n2),
{
}

/// Builds the verifier for one request.
pub fn make_verifier(key: &[u8], nonce: &[u8]) -> (r: String)
    requires
        key@.len() == 32,
        nonce@.len() == 16,
    ensures
        r@ == verifier_of(key@, nonce@),
{
    let nonce_b64 = b64_encode(nonce);
    proof {
        vstd::utf8::is_ascii_chars_encode_utf8(nonce_b64@);
    }
    let pt = nonce_b64.as_str().as_bytes();
    let ct = encrypt(pt, key, nonce).unwrap();
    b64_encode(ct.as_slice())
}

/// Wire shape of a test-associate request.
#[derive(Debug, Clone)]
pub struct TestAssociateRequest {
    /// Always the tag "test-associate".
    pub request_type: String,
    /// The client identity of the association under test.
    pub id: String,
    /// The fresh nonce, encoded.
    pub nonce: String,
    /// Proof of key possession for this nonce.
    pub verifier: String,
}

/// What a test-associate request holds when built over the given config and
/// nonce bytes.
pub open spec fn test_associate_req_wf(req: TestAssociateRequest, c: Config, nonce: Seq<u8>) -> bool {
    &&& req.request_type@ == "test-associate"@
    &&& req.id@ == c.id@
    &&& req.nonce@ == b64_of(nonce)
    &&& req.verifier@ == verifier_of(config_key(c), nonce)
}

impl TestAssociateRequest {
    /// Deterministic core of request building: everything but the nonce
    /// draw. Fails exactly when the config's stored secret is unusable.
    pub fn with_nonce(config: &Config, nonce: &Vec<u8>) -> (r: Result<TestAssociateRequest, Error>)
        requires
            nonce@.len() == 16,
        ensures
            r is Ok <==> config_key_wf(*config),
            r matches Ok(req) ==> test_associate_req_wf(req, *config, nonce@),
            r matches Err(e) ==> e == config_key_err(*config),
    {
        let key = match decode_config_key(config) {
            Ok(k) => k,
            Err(e) => {
                return Err(e);
            },
        };
        Ok(
            TestAssociateRequest {
                request_type: "test-associate".to_owned(),
                id: config.id.as_str().to_owned(),
                nonce: b64_encode(nonce.as_slice()),
                verifier: make_verifier(key.as_slice(), nonce.as_slice()),
            },
        )
    }

    /// Builds the request with a fresh nonce from the secure random source.
    pub fn new(config: &Config) -> (r: Result<TestAssociateRequest, Error>)
        ensures
            r is Ok <==> config_key_wf(*config),
            r matches Err(e) ==> e == config_key_err(*config),
            r matches Ok(req) ==> exists|n: Seq<u8>|
                n.len() == 16 && #[trigger] test_associate_req_wf(req, *config, n),
    {
        let nonce = generate_nonce();
        match Self::with_nonce(config, &nonce) {
            Ok(req) => {
                proof {
                    assert(test_associate_req_wf(req, *config, nonce@));
                }
                Ok(req)
            },
            Err(e) => Err(e),
        }
    }
}

/// Wire shape of an association request.
#[derive(Debug, Clone)]
pub struct AssociateRequest {
    /// Always the tag "associate".
    pub request_type: String,
    /// The brand-new credential secret, encoded.
    pub key: String,
    /// The fresh nonce, encoded.
    pub nonce: String,
    /// Proof of possession of the new secret for this nonce.
    pub verifier: String,
}

/// What an association request holds when built over the given fresh key and
/// nonce bytes.
pub open spec fn associate_req_wf(req: AssociateRequest, key: Seq<u8>, nonce: Seq<u8>) -> bool {
    &&& req.request_type@ == "associate"@
    &&& req.key@ == b64_of(key)
    &&& b64_decode_of(req.key@) == Some(key)
    &&& req.nonce@ == b64_of(nonce)
    &&& req.verifier@ == verifier_of(key, nonce)
}

impl AssociateRequest {
    /// Deterministic core of request building over given fresh material.
    pub fn from_material(key: &Vec<u8>, nonce: &Vec<u8>) -> (r: AssociateRequest)
        requires
            key@.len() == 32,
            nonce@.len() == 16,
        ensures
            associate_req_wf(r, key@, nonce@),
    {
        AssociateRequest {
            request_type: "associate".to_owned(),
            key: b64_encode(key.as_slice()),
            nonce: b64_encode(nonce.as_slice()),
            verifier: make_verifier(key.as_slice(), nonce.as_slice()),
        }
    }

    /// Builds the request with a brand-new credential secret and a fresh
    /// nonce, both from the secure random source.
    pub fn new() -> (r: AssociateRequest)
        ensures
            exists|k: Seq<u8>, n: Seq<u8>|
                k.len() == 32 && n.len() == 16 && #[trigger] associate_req_wf(r, k, n),
    {
        let key = generate_key();
        let nonce = generate_nonce();
        let r = Self::from_material(&key, &nonce);
        proof {
            assert(associate_req_wf(r, key@, nonce@));
        }
        r
    }
}

/// Wire shape of a get-logins request.
#[derive(Debug, Clone)]
pub struct GetLoginsRequest {
    /// Always the tag "get-logins".
    pub request_type: String,
    /// The client identity of the association.
    pub id: String,
    /// The fresh nonce, encoded.
    pub nonce: String,
    /// Proof of key possession for this nonce.
    pub verifier: String,
    /// The target, encrypted under (secret, nonce) and encoded.
    pub url: String,
}

/// What a get-logins request holds when built over the given config, target
/// bytes and nonce bytes.
pub open spec fn get_logins_req_wf(
    req: GetLoginsRequest,
    c: Config,
    url: Seq<u8>,
    nonce: Seq<u8>,
) -> bool {
    &&& req.request_type@ == "get-logins"@
    &&& req.id@ == c.id@
    &&& req.nonce@ == b64_of(nonce)
    &&& req.verifier@ == verifier_of(config_key(c), nonce)
    &&& req.url@ == b64_of(cipher_enc(url, config_key(c), nonce))
}

impl GetLoginsRequest {
    /// Deterministic core of request building: everything but the nonce
    /// draw. Fails exactly when the config's stored secret is unusable. The
    /// length bound on the target keeps the encoded ciphertext size within
    /// the machine.
    pub fn with_nonce(config: &Config, url: &str, nonce: &Vec<u8>) -> (r: Result<
        GetLoginsRequest,
        Error,
    >)
        requires
            nonce@.len() == 16,
            url.spec_bytes().len() + 16 <= usize::MAX / 4,
        ensures
            r is Ok <==> config_key_wf(*config),
            r matches Ok(req) ==> get_logins_req_wf(req, *config, url.spec_bytes(), nonce@),
            r matches Err(e) ==> e == config_key_err(*config),
    {
        let key = match decode_config_key(config) {
            Ok(k) => k,
            Err(e) => {
                return Err(e);
            },
        };
        let url_bytes = url.as_bytes();
        let url_ct = encrypt(url_bytes, key.as_slice(), nonce.as_slice()).unwrap();
        proof {
            assert((url_bytes@.len() / 16) * 16 <= url_bytes@.len()) by (nonlinear_arith);
        }
        Ok(
            GetLoginsRequest {
                request_type: "get-logins".to_owned(),
                id: config.id.as_str().to_owned(),
                nonce: b64_encode(nonce.as_slice()),
                verifier: make_verifier(key.as_slice(), nonce.as_slice()),
                url: b64_encode(url_ct.as_slice()),
            },
        )
    }

    /// Builds the request with a fresh nonce from the secure random source.
    pub fn new(config: &Config, url: &str) -> (r: Result<GetLoginsRequest, Error>)
        requires
            url.spec_bytes().len() + 16 <= usize::MAX / 4,
        ensures
            r is Ok <==> config_key_wf(*config),
            r matches Err(e) ==> e == config_key_err(*config),
            r matches Ok(req) ==> exists|n: Seq<u8>|
                n.len() == 16 && #[trigger] get_logins_req_wf(req, *config, url.spec_bytes(), n),
    {
        let nonce = generate_nonce();
        match Self::with_nonce(config, url, &nonce) {
            Ok(req) => {
                proof {
                    assert(get_logins_req_wf(req, *config, url.spec_bytes(), nonce@));
                }
                Ok(req)
            },
            Err(e) => Err(e),
        }
    }
}

/// Wire shape of a test-associate response.
#[derive(Debug, Clone)]
pub struct TestAssociateResponse {
    /// Whether the service still accepts the association.
    pub success: bool,
}

/// Wire shape of an association response.
#[derive(Debug, Clone)]
pub struct AssociateResponse {
    /// Whether the service accepted the association.
    pub success: bool,
    /// The identity the service issued; present exactly on success.
    pub id: Option<String>,
}

/// Wire shape of a get-logins response.
#[derive(Debug, Clone)]
pub struct GetLoginsResponse {
    /// The number of entries the service reports.
    pub count: u8,
    /// The credential entries, each field encrypted and encoded under the
    /// response nonce.
    pub entries: Vec<RawEntry>,
    /// Whether the lookup succeeded.
    pub success: bool,
    /// The service's error text; present exactly on failure.
    pub error: Option<String>,
    /// The server-chosen response nonce, encoded: the initialization value
    /// for decrypting every entry field.
    pub nonce: String,
}

} // verus!
