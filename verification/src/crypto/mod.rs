//! Signing schemes, signatures and the keys that make and check them.

pub mod encoding;
pub mod pem_codec;
pub mod primitives;
pub mod secret;
pub mod signing_key;
pub mod spki;
pub mod verification_key;

use vstd::prelude::*;

pub use signing_key::SigStoreSigner;
pub use verification_key::CosignVerificationKey;

verus! {

/// The signing schemes: an RSA scheme carries the key size to generate.
#[allow(non_camel_case_types)]
#[derive(Debug, Clone, Copy)]
pub enum SigningScheme {
    RSA_PSS_SHA256(usize),
    RSA_PSS_SHA384(usize),
    RSA_PSS_SHA512(usize),
    RSA_PKCS1_SHA256(usize),
    RSA_PKCS1_SHA384(usize),
    RSA_PKCS1_SHA512(usize),
    ECDSA_P256_SHA256_ASN1,
    ECDSA_P384_SHA384_ASN1,
    ED25519,
}

impl Default for SigningScheme {
    /// ECDSA over P-256 with SHA-256 is the default scheme.
    fn default() -> (scheme: Self)
        ensures
            scheme == SigningScheme::ECDSA_P256_SHA256_ASN1,
    {
        SigningScheme::ECDSA_P256_SHA256_ASN1
    }
}

/// A signature, either as raw bytes or as Base64 text.
#[derive(Debug, Clone, Copy)]
pub enum Signature<'a> {
    Raw(&'a [u8]),
    Base64Encoded(&'a [u8]),
}

/// The algorithms with which a verification key checks a signature.
#[derive(Debug, Clone, Copy)]
pub enum KeyAlgorithm {
    RsaPssSha256,
    RsaPssSha384,
    RsaPssSha512,
    RsaPkcs1Sha256,
    RsaPkcs1Sha384,
    RsaPkcs1Sha512,
    EcdsaP256Sha256Asn1,
    EcdsaP384Sha384Asn1,
    Ed25519,
}

/// The verification algorithm that belongs to a signing scheme.
pub open spec fn scheme_algorithm(scheme: SigningScheme) -> KeyAlgorithm {
    match scheme {
        SigningScheme::RSA_PSS_SHA256(_) => KeyAlgorithm::RsaPssSha256,
        SigningScheme::RSA_PSS_SHA384(_) => KeyAlgorithm::RsaPssSha384,
        SigningScheme::RSA_PSS_SHA512(_) => KeyAlgorithm::RsaPssSha512,
        SigningScheme::RSA_PKCS1_SHA256(_) => KeyAlgorithm::RsaPkcs1Sha256,
        SigningScheme::RSA_PKCS1_SHA384(_) => KeyAlgorithm::RsaPkcs1Sha384,
        SigningScheme::RSA_PKCS1_SHA512(_) => KeyAlgorithm::RsaPkcs1Sha512,
        SigningScheme::ECDSA_P256_SHA256_ASN1 => KeyAlgorithm::EcdsaP256Sha256Asn1,
        SigningScheme::ECDSA_P384_SHA384_ASN1 => KeyAlgorithm::EcdsaP384Sha384Asn1,
        SigningScheme::ED25519 => KeyAlgorithm::Ed25519,
    }
}

/// Whether the algorithm is one of the RSA ones.
pub open spec fn is_rsa_algorithm(alg: KeyAlgorithm) -> bool {
    match alg {
        KeyAlgorithm::EcdsaP256Sha256Asn1 | KeyAlgorithm::EcdsaP384Sha384Asn1
        | KeyAlgorithm::Ed25519 => false,
        _ => true,
    }
}

} // verus!
