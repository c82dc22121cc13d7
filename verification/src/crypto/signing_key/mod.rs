//! Key pairs and signers, and what they share: the PEM labels of private
//! keys, reading a private key out of PEM text, and the `KeyPair` and
//! `Signer` traits.

pub mod ecdsa;
pub mod ed25519;
pub mod rsa;

use vstd::prelude::*;
use vstd::utf8::{decode_utf8, encode_utf8, valid_utf8};

use crate::crypto::encoding::str_from_utf8;
use crate::crypto::pem_codec::{pem_encoding, pem_parse, pem_parsed};
use crate::crypto::primitives::{ed25519_pkcs8_public_key, ed25519_signature, signature_verifies};
use crate::crypto::secret::{SecretBytes, SecretString};
use crate::crypto::verification_key::CosignVerificationKey;
use crate::crypto::{KeyAlgorithm, SigningScheme};
use crate::errors::{Result, SigstoreError};

pub use ecdsa::ec::{EcdsaCurve, EcdsaKeys, EcdsaSigner, P256, P384};
pub use ed25519::{Ed25519Keys, Ed25519Signer};
pub use rsa::{keypair::RSAKeys, RSASigner};
use rsa::rsa_sign_outcome;

verus! {

/// The PEM label of an unencrypted PKCS#8 private key.
pub const PRIVATE_KEY_PEM_LABEL: &'static str = "PRIVATE KEY";

/// The PEM label of an RSA private key.
pub const RSA_PRIVATE_KEY_PEM_LABEL: &'static str = "RSA PRIVATE KEY";

/// The PEM label of a public key.
pub const PUBLIC_KEY_PEM_LABEL: &'static str = "PUBLIC KEY";

/// A key pair: its public and private key in DER and PEM form, and the
/// verification key it gives for a signing scheme.
pub trait KeyPair {
    /// The DER bytes of the public key.
    spec fn public_key_bytes(&self) -> Seq<u8>;

    /// The PKCS#8 DER bytes of the private key.
    spec fn private_key_bytes(&self) -> Seq<u8>;

    /// The verification key (algorithm and key bytes) for the scheme.
    spec fn verification_key_for(&self, scheme: SigningScheme) -> (KeyAlgorithm, Seq<u8>);

    /// Return the public key in PEM-encoded SPKI format.
    fn public_key_to_pem(&self) -> (r: Result<String>)
        ensures
            r matches Ok(p) && p@ == pem_encoding("PUBLIC KEY"@, self.public_key_bytes()),
    ;

    /// Return the public key in DER SPKI format.
    fn public_key_to_der(&self) -> (r: Result<Vec<u8>>)
        ensures
            r matches Ok(d) && d@ == self.public_key_bytes(),
    ;

    /// Return the private key in pkcs8 PEM-encoded format.
    fn private_key_to_pem(&self) -> (r: Result<SecretString>)
        ensures
            r matches Ok(p) && p@ == pem_encoding("PRIVATE KEY"@, self.private_key_bytes()),
    ;

    /// Return the private key in pkcs8 DER format.
    fn private_key_to_der(&self) -> (r: Result<SecretBytes>)
        ensures
            r matches Ok(d) && d@ == self.private_key_bytes(),
    ;

    /// Derive the relative [`CosignVerificationKey`].
    fn to_verification_key(&self, signing_scheme: &SigningScheme) -> (r: Result<
        CosignVerificationKey,
    >)
        ensures
            r matches Ok(k) && k@ == self.verification_key_for(*signing_scheme),
    ;
}

/// Something that signs messages.  Each signer also gives the key pair it
/// signs with, through its own `key_pair` method.
pub trait Signer {
    /// Sign the given message and return the signature.
    fn sign(&self, msg: &[u8]) -> (r: Result<Vec<u8>>);
}

/// Whether a PEM label is accepted for an unencrypted private key: always
/// `PRIVATE KEY`, and `RSA PRIVATE KEY` for RSA keys.
pub open spec fn accepted_private_label(tag: Seq<char>, accept_rsa_label: bool) -> bool {
    tag == "PRIVATE KEY"@ || (accept_rsa_label && tag == "RSA PRIVATE KEY"@)
}

/// The DER contents of the private key in PEM text: `None` where the text is
/// not UTF-8, not PEM, or has a label that is not accepted.
pub open spec fn private_pem_contents(pem: Seq<u8>, accept_rsa_label: bool) -> Option<Seq<u8>> {
    if !valid_utf8(pem) {
        None
    } else {
        match pem_parsed(pem) {
            None => None,
            Some((tag, contents)) => if accepted_private_label(tag, accept_rsa_label) {
                Some(contents)
            } else {
                None
            },
        }
    }
}

/// The error that reading a private key out of PEM text reports: a UTF-8
/// error, a PEM error, or an unsupported label.
pub open spec fn private_pem_error(pem: Seq<u8>, accept_rsa_label: bool, e: SigstoreError) -> bool {
    if !valid_utf8(pem) {
        e is Utf8Error
    } else {
        match pem_parsed(pem) {
            None => e is PEMParseError,
            Some((tag, _)) => !accepted_private_label(tag, accept_rsa_label) && (
            e matches SigstoreError::PrivateKeyDecryptError(m) && m@ == "Unsupported pem tag "@
                + tag),
        }
    }
}

/// Whether the text starts with the prefix.
pub open spec fn has_prefix(text: Seq<char>, prefix: Seq<char>) -> bool {
    prefix.len() <= text.len() && text.take(prefix.len() as int) == prefix
}

/// The text of the prefix followed by the detail.
pub fn prefixed(prefix: &str, detail: &str) -> (m: String)
    ensures
        m@ == prefix@ + detail@,
        has_prefix(m@, prefix@),
{
    let mut m = String::from_str(prefix);
    m.append(detail);
    assert(m@.take(prefix@.len() as int) =~= prefix@);
    m
}

/// Reads the DER contents of a private key out of PEM text: the text must
/// be UTF-8 and PEM, with an accepted label.
pub fn private_key_pem_contents(pem_data: &[u8], accept_rsa_label: bool) -> (r: Result<Vec<u8>>)
    ensures
        match private_pem_contents(pem_data@, accept_rsa_label) {
            Some(c) => r matches Ok(v) && v@ == c,
            None => r matches Err(e) && private_pem_error(pem_data@, accept_rsa_label, e),
        },
{
    let pem_str = match str_from_utf8(pem_data) {
        Ok(s) => s,
        Err(e) => return Err(SigstoreError::Utf8Error(e)),
    };
    proof {
        vstd::utf8::decode_utf8_encode_utf8(pem_data@);
    }
    let parsed_pem = match pem_parse(pem_str.as_bytes()) {
        Ok(b) => b,
        Err(e) => return Err(SigstoreError::PEMParseError(e)),
    };
    let private_label = String::from_str(PRIVATE_KEY_PEM_LABEL);
    let rsa_label = String::from_str(RSA_PRIVATE_KEY_PEM_LABEL);
    if parsed_pem.tag == private_label || (accept_rsa_label && parsed_pem.tag == rsa_label) {
        Ok(parsed_pem.contents)
    } else {
        Err(
            SigstoreError::PrivateKeyDecryptError(
                prefixed("Unsupported pem tag ", parsed_pem.tag.as_str()),
            ),
        )
    }
}

/// The signers of all schemes.
#[allow(non_camel_case_types)]
#[derive(Debug)]
pub enum SigStoreSigner {
    RSA_PSS_SHA256(RSASigner),
    RSA_PSS_SHA384(RSASigner),
    RSA_PSS_SHA512(RSASigner),
    RSA_PKCS1_SHA256(RSASigner),
    RSA_PKCS1_SHA384(RSASigner),
    RSA_PKCS1_SHA512(RSASigner),
    ECDSA_P256_SHA256_ASN1(EcdsaSigner<P256>),
    ECDSA_P384_SHA384_ASN1(EcdsaSigner<P384>),
    ED25519(Ed25519Signer),
}

impl SigStoreSigner {
    /// The algorithm that the signer's variant names.
    pub open spec fn variant_algorithm(&self) -> KeyAlgorithm {
        match self {
            SigStoreSigner::RSA_PSS_SHA256(_) => KeyAlgorithm::RsaPssSha256,
            SigStoreSigner::RSA_PSS_SHA384(_) => KeyAlgorithm::RsaPssSha384,
            SigStoreSigner::RSA_PSS_SHA512(_) => KeyAlgorithm::RsaPssSha512,
            SigStoreSigner::RSA_PKCS1_SHA256(_) => KeyAlgorithm::RsaPkcs1Sha256,
            SigStoreSigner::RSA_PKCS1_SHA384(_) => KeyAlgorithm::RsaPkcs1Sha384,
            SigStoreSigner::RSA_PKCS1_SHA512(_) => KeyAlgorithm::RsaPkcs1Sha512,
            SigStoreSigner::ECDSA_P256_SHA256_ASN1(_) => KeyAlgorithm::EcdsaP256Sha256Asn1,
            SigStoreSigner::ECDSA_P384_SHA384_ASN1(_) => KeyAlgorithm::EcdsaP384Sha384Asn1,
            SigStoreSigner::ED25519(_) => KeyAlgorithm::Ed25519,
        }
    }

    /// The verification key (algorithm and key bytes) of the signer: the
    /// public key of its key pair, with the signer's algorithm.
    pub open spec fn verification_key(&self) -> (KeyAlgorithm, Seq<u8>) {
        match self {
            SigStoreSigner::RSA_PSS_SHA256(s) => (s@.0, s@.1.1),
            SigStoreSigner::RSA_PSS_SHA384(s) => (s@.0, s@.1.1),
            SigStoreSigner::RSA_PSS_SHA512(s) => (s@.0, s@.1.1),
            SigStoreSigner::RSA_PKCS1_SHA256(s) => (s@.0, s@.1.1),
            SigStoreSigner::RSA_PKCS1_SHA384(s) => (s@.0, s@.1.1),
            SigStoreSigner::RSA_PKCS1_SHA512(s) => (s@.0, s@.1.1),
            SigStoreSigner::ECDSA_P256_SHA256_ASN1(s) => (KeyAlgorithm::EcdsaP256Sha256Asn1, s@.1),
            SigStoreSigner::ECDSA_P384_SHA384_ASN1(s) => (KeyAlgorithm::EcdsaP384Sha384Asn1, s@.1),
            SigStoreSigner::ED25519(s) => (KeyAlgorithm::Ed25519, s@.1),
        }
    }

    /// What is known of every signature the signer makes of the message: it
    /// verifies under the signer's verification key.
    pub open spec fn made_signature(&self, msg: Seq<u8>, sig: Seq<u8>) -> bool {
        signature_verifies(self.verification_key().0, self.verification_key().1, msg, sig)
    }

    /// What signing the message gives:
    ///   * Ed25519: the deterministic 64-byte signature of the private key,
    ///     which verifies under the signer's verification key, or an Ed25519
    ///     key error exactly where the key does not load or aws-lc-rs
    ///     reports no signature;
    ///   * ECDSA (whose keys always load): an ASN.1 signature (first octet
    ///     `0x30`) that verifies under the signer's verification key, or a PKCS#8 error `Signing failed:
    ///     ...` that the signing itself reported;
    ///   * RSA: as `rsa_sign_outcome` says.
    pub open spec fn sign_outcome(&self, msg: Seq<u8>, r: Result<Vec<u8>>) -> bool {
        match self {
            SigStoreSigner::ED25519(s) => match ed25519_signature(s@.0, msg) {
                Some(sig) => r matches Ok(v) && v@ == sig && sig.len() == 64 && self.made_signature(
                    msg,
                    sig,
                ),
                None => r matches Err(SigstoreError::Ed25519PKCS8Error(m)) && m@ == "Signing failed: "@
                    + "Unspecified"@,
            },
            SigStoreSigner::ECDSA_P256_SHA256_ASN1(_) | SigStoreSigner::ECDSA_P384_SHA384_ASN1(_) => {
                match r {
                    Ok(sig) => self.made_signature(msg, sig@) && sig@.len() > 0 && sig@[0] == 0x30u8,
                    Err(e) => e matches SigstoreError::PKCS8Error(m) && m@ == "Signing failed: "@
                        + "Unspecified"@,
                }
            },
            SigStoreSigner::RSA_PSS_SHA256(s) => rsa_sign_outcome(s@.0, s@.1, msg, r),
            SigStoreSigner::RSA_PSS_SHA384(s) => rsa_sign_outcome(s@.0, s@.1, msg, r),
            SigStoreSigner::RSA_PSS_SHA512(s) => rsa_sign_outcome(s@.0, s@.1, msg, r),
            SigStoreSigner::RSA_PKCS1_SHA256(s) => rsa_sign_outcome(s@.0, s@.1, msg, r),
            SigStoreSigner::RSA_PKCS1_SHA384(s) => rsa_sign_outcome(s@.0, s@.1, msg, r),
            SigStoreSigner::RSA_PKCS1_SHA512(s) => rsa_sign_outcome(s@.0, s@.1, msg, r),
        }
    }

    /// Sign the given message with the signer's key and scheme.
    pub fn sign(&self, msg: &[u8]) -> (r: Result<Vec<u8>>)
        ensures
            r matches Ok(s) ==> self.made_signature(msg@, s@),
            self.sign_outcome(msg@, r),
    {
        match self {
            SigStoreSigner::RSA_PSS_SHA256(signer) => signer.sign(msg),
            SigStoreSigner::RSA_PSS_SHA384(signer) => signer.sign(msg),
            SigStoreSigner::RSA_PSS_SHA512(signer) => signer.sign(msg),
            SigStoreSigner::RSA_PKCS1_SHA256(signer) => signer.sign(msg),
            SigStoreSigner::RSA_PKCS1_SHA384(signer) => signer.sign(msg),
            SigStoreSigner::RSA_PKCS1_SHA512(signer) => signer.sign(msg),
            SigStoreSigner::ECDSA_P256_SHA256_ASN1(signer) => signer.sign(msg),
            SigStoreSigner::ECDSA_P384_SHA384_ASN1(signer) => signer.sign(msg),
            SigStoreSigner::ED25519(signer) => signer.sign(msg),
        }
    }

    /// Derive the [`CosignVerificationKey`] of the signer.
    pub fn to_verification_key(&self) -> (r: Result<CosignVerificationKey>)
        ensures
            r matches Ok(k) && k@ == self.verification_key(),
    {
        match self {
            SigStoreSigner::RSA_PSS_SHA256(signer) => signer.to_verification_key(),
            SigStoreSigner::RSA_PSS_SHA384(signer) => signer.to_verification_key(),
            SigStoreSigner::RSA_PSS_SHA512(signer) => signer.to_verification_key(),
            SigStoreSigner::RSA_PKCS1_SHA256(signer) => signer.to_verification_key(),
            SigStoreSigner::RSA_PKCS1_SHA384(signer) => signer.to_verification_key(),
            SigStoreSigner::RSA_PKCS1_SHA512(signer) => signer.to_verification_key(),
            SigStoreSigner::ECDSA_P256_SHA256_ASN1(signer) => {
                signer.ecdsa_keys().to_verification_key(&SigningScheme::ECDSA_P256_SHA256_ASN1)
            },
            SigStoreSigner::ECDSA_P384_SHA384_ASN1(signer) => {
                signer.ecdsa_keys().to_verification_key(&SigningScheme::ECDSA_P384_SHA384_ASN1)
            },
            SigStoreSigner::ED25519(signer) => {
                signer.ed25519_keys().to_verification_key(&SigningScheme::ED25519)
            },
        }
    }
}

} // verus!
