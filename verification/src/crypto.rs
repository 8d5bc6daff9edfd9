//! Cipher engine and random source: a 256-bit-key block cipher in a chaining
//! mode with a 128-bit initialization value and standard block padding, and a
//! cryptographically secure generator for nonces and key material.

use vstd::prelude::*;

verus! {

use crate::errors::Error;

/// The ciphertext the block cipher produces in chaining mode with standard
/// padding, as a function of (plaintext, key, initialization value).
pub uninterp spec fn cipher_enc(p: Seq<u8>, key: Seq<u8>, iv: Seq<u8>) -> Seq<u8>;

/// The plaintext the block cipher recovers in chaining mode, or nothing when
/// the ciphertext is not a whole number of blocks or its padding is
/// malformed; a function of (ciphertext, key, initialization value).
pub uninterp spec fn cipher_dec(c: Seq<u8>, key: Seq<u8>, iv: Seq<u8>) -> Option<Seq<u8>>;

/// Whether the key and the initialization value have the lengths the cipher
/// takes: a 256-bit key and a 128-bit initialization value.
pub open spec fn key_iv_ok(key: Seq<u8>, iv: Seq<u8>) -> bool {
    key.len() == 32 && iv.len() == 16
}

/// Relies on cbc::Encryptor<aes::Aes256> (new_from_slices,
/// encrypt_padded_vec_mut with Pkcs7 padding): AES-256-CBC encryption. The
/// result is a deterministic function of (plaintext, key, iv), its length is
/// the plaintext padded up to the next whole block, and decrypting it under
/// the same key and iv returns the plaintext.
#[verifier::external_body]
fn cbc_encrypt(p: &[u8], key: &[u8], iv: &[u8]) -> (r: Vec<u8>)
    requires
        key@.len() == 32,
        iv@.len() == 16,
        p@.len() + 16 <= usize::MAX,
    ensures
        r@ == cipher_enc(p@, key@, iv@),
        r@.len() == (p@.len() / 16 + 1) * 16,
        cipher_dec(r@, key@, iv@) == Some(p@),
{
    let enc: cbc::Encryptor<aes::Aes256> =
        aes::cipher::KeyIvInit::new_from_slices(key, iv).unwrap();
    aes::cipher::BlockEncryptMut::encrypt_padded_vec_mut::<aes::cipher::block_padding::Pkcs7>(
        enc, p,
    )
}

/// Relies on cbc::Decryptor<aes::Aes256> (new_from_slices,
/// decrypt_padded_vec_mut with Pkcs7 padding): AES-256-CBC decryption. It
/// fails exactly when the input is not a whole number of blocks or the
/// padding it reveals is malformed, as a function of (ciphertext, key, iv).
#[verifier::external_body]
fn cbc_decrypt(c: &[u8], key: &[u8], iv: &[u8]) -> (r: Option<Vec<u8>>)
    requires
        key@.len() == 32,
        iv@.len() == 16,
    ensures
        r matches Some(v) ==> cipher_dec(c@, key@, iv@) == Some(v@),
        r is Some <==> cipher_dec(c@, key@, iv@) is Some,
        c@.len() % 16 != 0 ==> r is None,
{
    let dec: cbc::Decryptor<aes::Aes256> =
        aes::cipher::KeyIvInit::new_from_slices(key, iv).unwrap();
    match aes::cipher::BlockDecryptMut::decrypt_padded_vec_mut::<
        aes::cipher::block_padding::Pkcs7,
    >(dec, c) {
        Ok(v) => Some(v),
        Err(_) => None,
    }
}

/// Encrypts under (key, iv); fails exactly when the key or the
/// initialization value has the wrong length, or the padded size would not
/// fit the machine. No partial result on failure.
pub fn encrypt(p: &[u8], key: &[u8], iv: &[u8]) -> (r: Result<Vec<u8>, Error>)
    ensures
        r is Ok <==> key_iv_ok(key@, iv@) && p@.len() + 16 <= usize::MAX,
        r matches Ok(c) ==> c@ == cipher_enc(p@, key@, iv@) && c@.len() == (p@.len() / 16 + 1)
            * 16 && cipher_dec(c@, key@, iv@) == Some(p@),
        r matches Err(e) ==> e == Error::CryptoError,
{
    if key.len() != 32 || iv.len() != 16 {
        return Err(Error::CryptoError);
    }
    if p.len() > usize::MAX - 16 {
        return Err(Error::CryptoError);
    }
    Ok(cbc_encrypt(p, key, iv))
}

/// Decrypts under (key, iv); fails exactly when the key or the
/// initialization value has the wrong length, the ciphertext is not a whole
/// number of blocks, or the padding is malformed. No partial result on
/// failure.
pub fn decrypt(c: &[u8], key: &[u8], iv: &[u8]) -> (r: Result<Vec<u8>, Error>)
    ensures
        r is Ok <==> key_iv_ok(key@, iv@) && cipher_dec(c@, key@, iv@) is Some,
        r matches Ok(v) ==> cipher_dec(c@, key@, iv@) == Some(v@),
        r matches Err(e) ==> e == Error::CryptoError,
{
    if key.len() != 32 || iv.len() != 16 {
        return Err(Error::CryptoError);
    }
    match cbc_decrypt(c, key, iv) {
        Some(v) => Ok(v),
        None => Err(Error::CryptoError),
    }
}

/// Law: decryption undoes encryption, for every plaintext and every key and
/// initialization value of the lengths the cipher takes.
pub fn encrypt_then_decrypt(p: &[u8], key: &[u8], iv: &[u8]) -> (r: Vec<u8>)
    requires
        key@.len() == 32,
        iv@.len() == 16,
        p@.len() + 16 <= usize::MAX,
    ensures
        r@ == p@,
{
    let c = encrypt(p, key, iv).unwrap();
    decrypt(c.as_slice(), key, iv).unwrap()
}

/// Relies on rand::rngs::OsRng (rand::RngCore::fill_bytes): fills the buffer
/// from the operating system's cryptographically secure random source;
/// aborts only if that source itself fails. Nothing is promised of the
/// values, so no two calls may be assumed to agree.
#[verifier::external_body]
fn random_bytes(n: usize) -> (r: Vec<u8>)
    ensures
        r@.len() == n,
{
    let mut buf = vec![0u8; n];
    rand::RngCore::fill_bytes(&mut rand::rngs::OsRng, buf.as_mut_slice());
    buf
}

/// A fresh 128-bit nonce from the secure random source, generated anew for
/// every outgoing request and never reused.
pub fn generate_nonce() -> (r: Vec<u8>)
    ensures
        r@.len() == 16,
{
    random_bytes(16)
}

/// A fresh 256-bit credential secret from the secure random source.
pub fn generate_key() -> (r: Vec<u8>)
    ensures
        r@.len() == 32,
{
    random_bytes(32)
}

} // verus!
