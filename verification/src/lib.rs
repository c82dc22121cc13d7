//! Signing keys, signers and verification keys for Sigstore-style signatures,
//! built on aws-lc-rs, with the key handling, encoding dispatch and signature
//! checking logic verified.

pub mod crypto;
pub mod errors;
