//! Binary-to-text codec used on every encrypted field and on raw key and
//! nonce bytes before transmission, plus lossy text decoding of decrypted
//! entry fields.

use vstd::prelude::*;

verus! {

use crate::errors::Error;

/// The text that the binary-to-text encoder produces for the given bytes.
pub uninterp spec fn b64_of(b: Seq<u8>) -> Seq<char>;

/// The bytes that the binary-to-text decoder returns for the given text,
/// or nothing when the text is malformed (wrong alphabet, bad padding).
pub uninterp spec fn b64_decode_of(s: Seq<char>) -> Option<Seq<u8>>;

/// The decoded bytes of a text, or the empty sequence when it is malformed.
pub open spec fn decoded_of(s: Seq<char>) -> Seq<u8> {
    match b64_decode_of(s) {
        Option::Some(b) => b,
        Option::None => Seq::empty(),
    }
}

/// The text that lossy text decoding produces for the given bytes; a total,
/// deterministic function of the bytes alone.
pub uninterp spec fn utf8_lossy_of(b: Seq<u8>) -> Seq<char>;

/// Relies on base64::encode (standard alphabet, padded): the output is a
/// deterministic function of the input bytes, is ASCII, has the usual padded
/// length, and decoding it returns the input. The length bound keeps the
/// output size computation from overflowing.
#[verifier::external_body]
pub fn b64_encode(b: &[u8]) -> (r: String)
    requires
        b@.len() <= usize::MAX / 4,
    ensures
        r@ == b64_of(b@),
        r@.len() == ((b@.len() + 2) / 3) * 4,
        vstd::utf8::is_ascii_chars(r@),
        b64_decode_of(r@) == Some(b@),
{
    base64::encode(b)
}

/// Relies on base64::decode (standard alphabet, padded): returns the decoded
/// bytes, and fails exactly on malformed text.
#[verifier::external_body]
pub fn b64_decode(s: &str) -> (r: Result<Vec<u8>, Error>)
    ensures
        r matches Ok(v) ==> b64_decode_of(s@) == Some(v@),
        r is Ok <==> b64_decode_of(s@) is Some,
        r matches Err(e) ==> e == Error::DecodeError,
{
    match base64::decode(s) {
        Ok(v) => Ok(v),
        Err(_) => Err(Error::DecodeError),
    }
}

/// Relies on String::from_utf8_lossy: total and deterministic in the bytes
/// alone (invalid sequences are replaced, never rejected).
#[verifier::external_body]
pub fn utf8_lossy(b: &[u8]) -> (r: String)
    ensures
        r@ == utf8_lossy_of(b@),
{
    String::from_utf8_lossy(b).into_owned()
}

/// Law: decoding undoes encoding, for every byte sequence, the empty one
/// included.
pub fn encode_then_decode(b: &[u8]) -> (r: Vec<u8>)
    requires
        b@.len() <= usize::MAX / 4,
    ensures
        r@ == b@,
{
    let s = b64_encode(b);
    let d = b64_decode(s.as_str());
    d.unwrap()
}

} // verus!
