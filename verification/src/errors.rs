//! Closed error taxonomy of the core, one tagged variant type per
//! component. No component recovers internally: every failure is returned
//! to the caller with its kind intact.

use vstd::prelude::*;

verus! {

/// Failures of the envelope-encryption engine.
#[derive(Debug, Clone, Copy, PartialEq, Eq, Structural)]
pub enum CryptoError {
    /// The configured key is not valid base64 or is not exactly 32 bytes.
    InvalidKey,
    /// The envelope is not valid base64 or is shorter than the nonce.
    Malformed,
    /// The authentication tag does not verify: tampering, a wrong key or
    /// corruption. Never answered with partial plaintext.
    AuthenticationFailed,
}

/// Failures surfaced by the external store, carried with their cause.
#[derive(Debug)]
pub struct StorageError {
    pub message: String,
}

/// Failures of the encrypted field store. Lower-level failures are
/// wrapped without losing their kind, so a caller can tell "does not
/// exist" from "exists but corrupted" from "storage unavailable".
#[derive(Debug)]
pub enum FieldError {
    /// The field name is outside the closed enumeration of document kinds.
    UnknownField,
    /// No record, or the field is empty, for the requested (subject, field).
    NotFound,
    /// The decrypted payload is not a well-formed document text.
    ParseFailure,
    /// Decryption failed; the inner kind is preserved.
    Crypto(CryptoError),
    /// The external store failed; its cause is preserved.
    Storage(StorageError),
}

} // verus!
