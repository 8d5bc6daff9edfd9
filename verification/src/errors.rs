use vstd::prelude::*;

verus! {

/// Failure taxonomy of the protocol core. Every failure is surfaced as a
/// typed value; the core never terminates the process.
#[derive(Debug, Clone, PartialEq, Eq)]
pub enum Error {
    /// Wrong key or initialization-value length, a ciphertext that is not a
    /// whole number of blocks, or malformed padding.
    CryptoError,
    /// Malformed binary-to-text encoded input.
    DecodeError,
    /// The transport collaborator could not deliver the request, or the
    /// service answered with a non-success status; carries the collaborator's
    /// diagnostic text.
    TransportError(String),
    /// The service explicitly declined association (user cancel or protocol
    /// mismatch).
    AssociationError,
    /// The service explicitly reported failure for a lookup; carries its
    /// error text verbatim.
    LookupError(String),
}

} // verus!
