//! A fixed set of named test accounts, each with an ECDSA key pair derived
//! deterministically from its name.

pub mod ecdsa;
pub mod keyring;

pub use keyring::Keyring;
