//! Access-control and confidentiality core of a personal-document vault.
//!
//! The library has four verified subsystems:
//! - [`crypto`]: authenticated envelope encryption of byte payloads
//!   (`CryptoManager`), delegating AES-256-GCM and base64 to the outside
//!   crates behind trusted wrappers;
//! - [`session`]: an in-memory registry of bearer sessions
//!   (`SessionManager`) with lazy expiry, revocation and sweeping;
//! - [`gate`]: the request-interception policy that extracts a bearer
//!   token from an `Authorization` header and consults the session
//!   registry before any protected logic may run;
//! - [`wallet`] and [`fields`]: the encrypted field store, which restricts
//!   field names to a closed enumeration and encrypts every document
//!   before it may reach durable storage.
//!
//! Persistence, HTTP plumbing and the remote proxy are outside the
//! library; they hand plain values in and take plain values back.

pub mod crypto;
pub mod errors;
pub mod fields;
pub mod gate;
pub mod requests;
pub mod session;
pub mod wallet;
