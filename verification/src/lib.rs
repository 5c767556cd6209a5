//! One-time passwords: counter-based codes after RFC 4226 and their
//! time-stepped variant after RFC 6238, together with the secrets that seed
//! them.
//!
//! A secret is a byte string that is handed around as upper-case base-32
//! text. A code is the keyed hash of a 64-bit counter under the secret, cut
//! down to 31 bits and printed as six decimal digits.

pub mod base32;
pub mod codes;
pub mod counter;
pub mod endian;
pub mod error;
pub mod format;
pub mod mac;
pub mod secrets;
pub mod truncation;

pub use codes::code;
pub use error::Error;
pub use secrets::secret;
