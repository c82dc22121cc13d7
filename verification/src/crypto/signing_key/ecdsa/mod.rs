//! ECDSA keys and signers.

pub mod ec;
