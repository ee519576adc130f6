//! Core operations for an account-based ledger: text codecs for keys and
//! signatures, keypair generation and reconstruction, program-derived address
//! search, unsigned instruction construction, and message signing/verification.

pub mod address;
pub mod codec;
pub mod error;
pub mod instruction;
pub mod keys;
