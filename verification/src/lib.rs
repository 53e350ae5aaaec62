//! Cross-form X25519 key agreement.
//!
//! Identity keys are carried in Edwards form (the 32-byte compressed encoding
//! used by signature schemes), while the Diffie-Hellman computation itself
//! runs on the birationally equivalent Montgomery curve.  This crate converts
//! the peer's Edwards public key to its Montgomery u-coordinate, derives or
//! generates a clamped local scalar, computes the shared secret, and converts
//! the local Montgomery public key back to Edwards form.

pub mod agree;
pub mod convert;
pub mod errors;
pub mod secret;

pub use agree::xed25519_ecdh;
pub use agree::ECDHKeys;
pub use convert::edwards_to_montgomery;
pub use convert::montgomery_to_edwards;
pub use errors::EcdhError;
pub use secret::derive_secret;
pub use secret::generate_secret;
