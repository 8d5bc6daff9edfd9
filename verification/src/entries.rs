//! Entry decryption: mapping an encrypted response entry plus the response's
//! session nonce into a plaintext credential record.

use vstd::prelude::*;

verus! {

use crate::codec::{b64_decode_of, decoded_of, b64_decode, utf8_lossy, utf8_lossy_of};
use crate::crypto::{cipher_dec, decrypt};
use crate::errors::Error;

/// One credential record as the service returns it: four fields, each
/// independently encrypted under (credential secret, response nonce) and
/// encoded. Constructed only by parsing a response and immediately fed to
/// decryption.
#[derive(Debug, Clone, PartialEq, Eq)]
pub struct RawEntry {
    /// The login, encrypted and encoded.
    pub login: String,
    /// The display name, encrypted and encoded.
    pub name: String,
    /// The password, encrypted and encoded.
    pub password: String,
    /// The unique id, encrypted and encoded.
    pub uuid: String,
}

/// One decrypted credential record: the terminal artifact handed to the
/// caller.
#[derive(Debug, Clone, PartialEq, Eq)]
pub struct Entry {
    /// The plaintext login.
    pub login: String,
    /// The plaintext display name.
    pub name: String,
    /// The plaintext password.
    pub password: String,
    /// The plaintext unique id.
    pub uuid: String,
}

/// The plaintext of one encrypted-and-encoded field under (key, iv), or
/// nothing when the text or the ciphertext is malformed. The recovered bytes
/// are read as text with lossy substitution, never a failure.
pub open spec fn field_plain(field: Seq<char>, key: Seq<u8>, iv: Seq<u8>) -> Option<Seq<char>> {
    match b64_decode_of(field) {
        Option::Some(c) => match cipher_dec(c, key, iv) {
            Option::Some(p) => Option::Some(utf8_lossy_of(p)),
            Option::None => Option::None,
        },
        Option::None => Option::None,
    }
}

/// The error one malformed field raises: malformed encoding at the codec
/// boundary, otherwise a cipher failure.
pub open spec fn field_err(field: Seq<char>, key: Seq<u8>, iv: Seq<u8>) -> Error {
    if b64_decode_of(field) is None {
        Error::DecodeError
    } else {
        Error::CryptoError
    }
}

/// Whether the encoded key and initialization value decode to the lengths
/// the cipher takes.
pub open spec fn entry_keys_ok(key_b64: Seq<char>, iv_b64: Seq<char>) -> bool {
    &&& b64_decode_of(key_b64) matches Some(k) && k.len() == 32
    &&& b64_decode_of(iv_b64) matches Some(v) && v.len() == 16
}

/// Whether a whole raw entry decrypts: the key material is usable and all
/// four fields are well-formed. Partial decryption is never a valid state.
pub open spec fn raw_entry_ok(raw: RawEntry, key_b64: Seq<char>, iv_b64: Seq<char>) -> bool {
    let k = decoded_of(key_b64);
    let iv = decoded_of(iv_b64);
    &&& entry_keys_ok(key_b64, iv_b64)
    &&& field_plain(raw.login@, k, iv) is Some
    &&& field_plain(raw.name@, k, iv) is Some
    &&& field_plain(raw.password@, k, iv) is Some
    &&& field_plain(raw.uuid@, k, iv) is Some
}

/// The error decrypting a raw entry raises, examining the key material and
/// then the four fields in order; meaningful when the entry does not
/// decrypt.
pub open spec fn raw_entry_err(raw: RawEntry, key_b64: Seq<char>, iv_b64: Seq<char>) -> Error {
    if b64_decode_of(key_b64) is None {
        Error::DecodeError
    } else if decoded_of(key_b64).len() != 32 {
        Error::CryptoError
    } else if b64_decode_of(iv_b64) is None {
        Error::DecodeError
    } else if decoded_of(iv_b64).len() != 16 {
        Error::CryptoError
    } else {
        let k = decoded_of(key_b64);
        let iv = decoded_of(iv_b64);
        if field_plain(raw.login@, k, iv) is None {
            field_err(raw.login@, k, iv)
        } else if field_plain(raw.name@, k, iv) is None {
            field_err(raw.name@, k, iv)
        } else if field_plain(raw.password@, k, iv) is None {
            field_err(raw.password@, k, iv)
        } else {
            field_err(raw.uuid@, k, iv)
        }
    }
}

/// Whether a decrypted entry carries exactly the plaintexts of a raw entry
/// under the given key material.
pub open spec fn entry_matches(e: Entry, raw: RawEntry, key_b64: Seq<char>, iv_b64: Seq<char>) -> bool {
    let k = decoded_of(key_b64);
    let iv = decoded_of(iv_b64);
    &&& field_plain(raw.login@, k, iv) == Some(e.login@)
    &&& field_plain(raw.name@, k, iv) == Some(e.name@)
    &&& field_plain(raw.password@, k, iv) == Some(e.password@)
    &&& field_plain(raw.uuid@, k, iv) == Some(e.uuid@)
}

/// Law: malformed ciphertext on any field of a raw entry — once the key
/// material is usable and every field's text decodes — raises a crypto
/// error, and no entry is produced (decryption returns exactly this error
/// whenever it does not return an entry).
pub proof fn lemma_malformed_ciphertext_is_crypto_err(
    raw: RawEntry,
    key_b64: Seq<char>,
    iv_b64: Seq<char>,
)
    requires
        entry_keys_ok(key_b64, iv_b64),
        b64_decode_of(raw.login@) is Some,
        b64_decode_of(raw.name@) is Some,
        b64_decode_of(raw.password@) is Some,
        b64_decode_of(raw.uuid@) is Some,
        !raw_entry_ok(raw, key_b64, iv_b64),
    ensures
        raw_entry_err(raw, key_b64, iv_b64) == Error::CryptoError,
{
}

/// Decodes and decrypts one field.
fn decrypt_field(field: &str, key: &[u8], iv: &[u8]) -> (r: Result<String, Error>)
    requires
        key@.len() == 32,
        iv@.len() == 16,
    ensures
        r is Ok <==> field_plain(field@, key@, iv@) is Some,
        r matches Ok(s) ==> field_plain(field@, key@, iv@) == Some(s@),
        r matches Err(e) ==> e == field_err(field@, key@, iv@),
{
    let c = match b64_decode(field) {
        Ok(c) => c,
        Err(e) => {
            return Err(e);
        },
    };
    let p = match decrypt(c.as_slice(), key, iv) {
        Ok(p) => p,
        Err(e) => {
            return Err(e);
        },
    };
    Ok(utf8_lossy(p.as_slice()))
}

impl RawEntry {
    /// Decrypts all four fields under the encoded credential secret and the
    /// encoded response nonce. Either every field decrypts and an entry is
    /// returned, or the whole operation fails and no entry is produced.
    pub fn decrypt(&self, key_b64: &str, iv_b64: &str) -> (r: Result<Entry, Error>)
        ensures
            r is Ok <==> raw_entry_ok(*self, key_b64@, iv_b64@),
            r matches Ok(e) ==> entry_matches(e, *self, key_b64@, iv_b64@),
            r matches Err(e) ==> e == raw_entry_err(*self, key_b64@, iv_b64@),
    {
        let key = match b64_decode(key_b64) {
            Ok(k) => k,
            Err(e) => {
                return Err(e);
            },
        };
        if key.len() != 32 {
            return Err(Error::CryptoError);
        }
        let iv = match b64_decode(iv_b64) {
            Ok(v) => v,
            Err(e) => {
                return Err(e);
            },
        };
        if iv.len() != 16 {
            return Err(Error::CryptoError);
        }
        let login = match decrypt_field(self.login.as_str(), key.as_slice(), iv.as_slice()) {
            Ok(s) => s,
            Err(e) => {
                return Err(e);
            },
        };
        let name = match decrypt_field(self.name.as_str(), key.as_slice(), iv.as_slice()) {
            Ok(s) => s,
            Err(e) => {
                return Err(e);
            },
        };
        let password = match decrypt_field(self.password.as_str(), key.as_slice(), iv.as_slice()) {
            Ok(s) => s,
            Err(e) => {
                return Err(e);
            },
        };
        let uuid = match decrypt_field(self.uuid.as_str(), key.as_slice(), iv.as_slice()) {
            Ok(s) => s,
            Err(e) => {
                return Err(e);
            },
        };
        Ok(Entry { login, name, password, uuid })
    }
}

/// Decrypts a whole response's entries in the order the service returned
/// them. Fails with the first failing entry's error; no partial list is
/// returned.
pub fn decrypt_entries(entries: &Vec<RawEntry>, key_b64: &str, iv_b64: &str) -> (r: Result<
    Vec<Entry>,
    Error,
>)
    ensures
        r is Ok <==> (forall|i: int|
            0 <= i < entries@.len() ==> raw_entry_ok(#[trigger] entries@[i], key_b64@, iv_b64@)),
        r matches Ok(v) ==> v@.len() == entries@.len() && (forall|i: int|
            0 <= i < entries@.len() ==> entry_matches(
                v@[i],
                #[trigger] entries@[i],
                key_b64@,
                iv_b64@,
            )),
        r matches Err(e) ==> exists|i: int|
            0 <= i < entries@.len() && !raw_entry_ok(#[trigger] entries@[i], key_b64@, iv_b64@)
                && e == raw_entry_err(entries@[i], key_b64@, iv_b64@) && (forall|j: int|
                0 <= j < i ==> raw_entry_ok(#[trigger] entries@[j], key_b64@, iv_b64@)),
{
    let n = entries.len();
    let mut out: Vec<Entry> = Vec::new();
    let mut idx: usize = 0;
    while idx < n
        invariant
            n == entries@.len(),
            idx <= n,
            out@.len() == idx,
            forall|j: int|
                0 <= j < idx ==> raw_entry_ok(#[trigger] entries@[j], key_b64@, iv_b64@),
            forall|j: int|
                0 <= j < idx ==> entry_matches(out@[j], #[trigger] entries@[j], key_b64@, iv_b64@),
        decreases n - idx,
    {
        let raw = &entries[idx];
        match raw.decrypt(key_b64, iv_b64) {
            Ok(e) => {
                out.push(e);
            },
            Err(e) => {
                return Err(e);
            },
        }
        idx += 1;
    }
    Ok(out)
}

} // verus!
