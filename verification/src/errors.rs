//! Errors reported by the key handling code.

use vstd::prelude::*;

verus! {

#[verifier::external_type_specification]
#[verifier::external_body]
pub struct ExBase64DecodeError(base64::DecodeError);

#[verifier::external_type_specification]
#[verifier::external_body]
pub struct ExPemError(pem::PemError);

#[verifier::external_type_specification]
#[verifier::external_body]
pub struct ExUtf8Error(std::str::Utf8Error);

/// The errors of this library.
#[derive(Debug)]
pub enum SigstoreError {
    PKCS8Error(String),
    Ed25519PKCS8Error(String),
    PKCS8SpkiError(String),
    PrivateKeyDecryptError(String),
    PublicKeyUnsupportedAlgorithmError(String),
    InvalidKeyFormat { error: String },
    PublicKeyVerificationError,
    Base64DecodeError(base64::DecodeError),
    PEMParseError(pem::PemError),
    Utf8Error(std::str::Utf8Error),
}

/// The result type of this library.
pub type Result<T> = std::result::Result<T, SigstoreError>;

} // verus!
