//! Client core of a local, encrypted password-retrieval protocol: nonce and
//! verifier construction, symmetric encryption of outgoing fields, request
//! and response shapes for the three operations (associate, test-associate,
//! get-logins), and decryption of returned credential entries.
//!
//! The transport (one HTTP round trip per call) and the persistence of the
//! association are collaborators behind narrow interfaces; they live in the
//! surrounding application.

pub mod codec;
pub mod crypto;
pub mod entries;
pub mod errors;
pub mod messages;
pub mod protocol;
