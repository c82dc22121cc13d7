//! # RSA Signer using aws-lc-rs
//!
//! RSA Signer supports the following padding schemes:
//! * `PSS`
//! * `PKCS#1 v1.5`
//!
//! And the following digest algorithms:
//! * `Sha256`
//! * `Sha384`
//! * `Sha512`

pub mod keypair;

use vstd::prelude::*;

use self::keypair::RSAKeys;
use crate::crypto::primitives::{
    is_pkcs1_encoding, rsa_encoding_algorithm, rsa_pkcs1_signature, rsa_pkcs8_modulus_len,
    rsa_sign_pkcs8, signature_verifies, RsaEncoding, SignFailure,
};
use crate::crypto::signing_key::{has_prefix, prefixed, KeyPair, SigStoreSigner, Signer};
use crate::crypto::verification_key::CosignVerificationKey;
use crate::crypto::{scheme_algorithm, KeyAlgorithm, SigningScheme};
use crate::errors::{Result, SigstoreError};

verus! {

/// The key size of generated RSA keys, in bits.
pub const DEFAULT_KEY_SIZE: usize = 2048;

/// Different digest algorithms used in RSA-based signing algorithm.
#[derive(Debug, Clone, Copy)]
pub enum DigestAlgorithm {
    Sha256,
    Sha384,
    Sha512,
}

/// Different padding schemes used in RSA-based signing algorithm.
/// * `PSS`: Probabilistic Signature Scheme, more secure than `PKCS1v15`.
/// * `PKCS1v15`: also known as simply PKCS1, is a simple padding
///   scheme developed for use with RSA keys.
#[derive(Debug, Clone, Copy)]
pub enum PaddingScheme {
    PSS,
    PKCS1v15,
}

/// The RSA verification algorithm of a digest and a padding.
pub open spec fn rsa_algorithm(digest: DigestAlgorithm, padding: PaddingScheme) -> KeyAlgorithm {
    match padding {
        PaddingScheme::PSS => match digest {
            DigestAlgorithm::Sha256 => KeyAlgorithm::RsaPssSha256,
            DigestAlgorithm::Sha384 => KeyAlgorithm::RsaPssSha384,
            DigestAlgorithm::Sha512 => KeyAlgorithm::RsaPssSha512,
        },
        PaddingScheme::PKCS1v15 => match digest {
            DigestAlgorithm::Sha256 => KeyAlgorithm::RsaPkcs1Sha256,
            DigestAlgorithm::Sha384 => KeyAlgorithm::RsaPkcs1Sha384,
            DigestAlgorithm::Sha512 => KeyAlgorithm::RsaPkcs1Sha512,
        },
    }
}

/// The digest of an RSA verification algorithm (`None` for the others).
pub open spec fn rsa_algorithm_digest(alg: KeyAlgorithm) -> Option<DigestAlgorithm> {
    match alg {
        KeyAlgorithm::RsaPssSha256 | KeyAlgorithm::RsaPkcs1Sha256 => Some(DigestAlgorithm::Sha256),
        KeyAlgorithm::RsaPssSha384 | KeyAlgorithm::RsaPkcs1Sha384 => Some(DigestAlgorithm::Sha384),
        KeyAlgorithm::RsaPssSha512 | KeyAlgorithm::RsaPkcs1Sha512 => Some(DigestAlgorithm::Sha512),
        _ => None,
    }
}

/// The padding of an RSA verification algorithm (`None` for the others).
pub open spec fn rsa_algorithm_padding(alg: KeyAlgorithm) -> Option<PaddingScheme> {
    match alg {
        KeyAlgorithm::RsaPssSha256 | KeyAlgorithm::RsaPssSha384 | KeyAlgorithm::RsaPssSha512 => Some(
            PaddingScheme::PSS,
        ),
        KeyAlgorithm::RsaPkcs1Sha256 | KeyAlgorithm::RsaPkcs1Sha384 | KeyAlgorithm::RsaPkcs1Sha512 => {
            Some(PaddingScheme::PKCS1v15)
        },
        _ => None,
    }
}

/// The signer built from an RSA key pair with a digest and a padding signs
/// with exactly that digest and padding: the variant it is wrapped in and
/// the algorithm of its verification key are one RSA algorithm, of that
/// digest and that padding, and its verification key holds the key pair's
/// public key.
pub proof fn law_rsa_signer_scheme(
    s: SigStoreSigner,
    digest: DigestAlgorithm,
    padding: PaddingScheme,
    keys: (Seq<u8>, Seq<u8>),
)
    requires
        sigstore_rsa_signer(s, rsa_algorithm(digest, padding), keys),
    ensures
        s.variant_algorithm() == s.verification_key().0,
        rsa_algorithm_digest(s.variant_algorithm()) == Some(digest),
        rsa_algorithm_padding(s.variant_algorithm()) == Some(padding),
        s.verification_key().1 == keys.1,
{
}

/// The signature encoding of an RSA verification algorithm.
pub open spec fn rsa_algorithm_encoding(alg: KeyAlgorithm) -> RsaEncoding {
    match alg {
        KeyAlgorithm::RsaPssSha256 => RsaEncoding::PssSha256,
        KeyAlgorithm::RsaPssSha384 => RsaEncoding::PssSha384,
        KeyAlgorithm::RsaPssSha512 => RsaEncoding::PssSha512,
        KeyAlgorithm::RsaPkcs1Sha256 => RsaEncoding::Pkcs1Sha256,
        KeyAlgorithm::RsaPkcs1Sha384 => RsaEncoding::Pkcs1Sha384,
        _ => RsaEncoding::Pkcs1Sha512,
    }
}

/// What signing a message with an RSA key pair (PKCS#8 bytes, public key)
/// under an RSA algorithm gives:
///   * a signature of the modulus length that verifies under the public
///     key; for PKCS#1 v1.5 exactly the deterministic signature that
///     aws-lc-rs computes;
///   * or a PKCS#8 error `RSA signing failed: ...`, reported by the signing
///     itself; for PKCS#1 v1.5 exactly where aws-lc-rs gives no signature.
pub open spec fn rsa_sign_outcome(
    alg: KeyAlgorithm,
    keys: (Seq<u8>, Seq<u8>),
    msg: Seq<u8>,
    r: Result<Vec<u8>>,
) -> bool {
    let encoding = rsa_algorithm_encoding(alg);
    match r {
        Ok(sig) => {
            &&& signature_verifies(alg, keys.1, msg, sig@)
            &&& rsa_pkcs8_modulus_len(keys.0) == Some(sig@.len())
            &&& is_pkcs1_encoding(encoding) ==> rsa_pkcs1_signature(encoding, keys.0, msg) == Some(
                sig@,
            )
        },
        Err(e) => {
            &&& e matches SigstoreError::PKCS8Error(m) && m@ == "RSA signing failed: "@
                + "Unspecified"@
            &&& is_pkcs1_encoding(encoding) ==> rsa_pkcs1_signature(encoding, keys.0, msg) is None
        },
    }
}

/// RSA signing scheme families:
/// * `PKCS1v15`: PKCS#1 1.5 padding for RSA signatures.
/// * `PSS`: RSA PSS padding for RSA signatures.
///
/// Both schemes support the following digest algorithms:
/// * `Sha256`
/// * `Sha384`
/// * `Sha512`
#[derive(Debug)]
#[allow(non_camel_case_types)]
pub enum RSASigner {
    RSA_PSS_SHA256(RSAKeys),
    RSA_PSS_SHA384(RSAKeys),
    RSA_PSS_SHA512(RSAKeys),
    RSA_PKCS1_SHA256(RSAKeys),
    RSA_PKCS1_SHA384(RSAKeys),
    RSA_PKCS1_SHA512(RSAKeys),
}

impl View for RSASigner {
    /// A signer is its verification algorithm and its key pair.
    type V = (KeyAlgorithm, (Seq<u8>, Seq<u8>));

    open spec fn view(&self) -> (KeyAlgorithm, (Seq<u8>, Seq<u8>)) {
        match self {
            RSASigner::RSA_PSS_SHA256(k) => (KeyAlgorithm::RsaPssSha256, k@),
            RSASigner::RSA_PSS_SHA384(k) => (KeyAlgorithm::RsaPssSha384, k@),
            RSASigner::RSA_PSS_SHA512(k) => (KeyAlgorithm::RsaPssSha512, k@),
            RSASigner::RSA_PKCS1_SHA256(k) => (KeyAlgorithm::RsaPkcs1Sha256, k@),
            RSASigner::RSA_PKCS1_SHA384(k) => (KeyAlgorithm::RsaPkcs1Sha384, k@),
            RSASigner::RSA_PKCS1_SHA512(k) => (KeyAlgorithm::RsaPkcs1Sha512, k@),
        }
    }
}

/// The signer of all schemes that an RSA signer of this algorithm is
/// wrapped in.
pub open spec fn sigstore_rsa_signer(s: SigStoreSigner, alg: KeyAlgorithm, keys: (Seq<u8>, Seq<u8>)) -> bool {
    match s {
        SigStoreSigner::RSA_PSS_SHA256(r) => alg == KeyAlgorithm::RsaPssSha256 && r@ == (alg, keys),
        SigStoreSigner::RSA_PSS_SHA384(r) => alg == KeyAlgorithm::RsaPssSha384 && r@ == (alg, keys),
        SigStoreSigner::RSA_PSS_SHA512(r) => alg == KeyAlgorithm::RsaPssSha512 && r@ == (alg, keys),
        SigStoreSigner::RSA_PKCS1_SHA256(r) => alg == KeyAlgorithm::RsaPkcs1Sha256 && r@ == (alg, keys),
        SigStoreSigner::RSA_PKCS1_SHA384(r) => alg == KeyAlgorithm::RsaPkcs1Sha384 && r@ == (alg, keys),
        SigStoreSigner::RSA_PKCS1_SHA512(r) => alg == KeyAlgorithm::RsaPkcs1Sha512 && r@ == (alg, keys),
        _ => false,
    }
}

impl RSASigner {
    /// An RSA signer of the key pair with the digest and padding.
    pub fn from_rsa_keys(
        rsa_keys: &RSAKeys,
        digest_algorithm: DigestAlgorithm,
        padding_scheme: PaddingScheme,
    ) -> (r: Self)
        ensures
            r@ == (rsa_algorithm(digest_algorithm, padding_scheme), rsa_keys@),
    {
        match padding_scheme {
            PaddingScheme::PSS => match digest_algorithm {
                DigestAlgorithm::Sha256 => RSASigner::RSA_PSS_SHA256(rsa_keys.clone()),
                DigestAlgorithm::Sha384 => RSASigner::RSA_PSS_SHA384(rsa_keys.clone()),
                DigestAlgorithm::Sha512 => RSASigner::RSA_PSS_SHA512(rsa_keys.clone()),
            },
            PaddingScheme::PKCS1v15 => match digest_algorithm {
                DigestAlgorithm::Sha256 => RSASigner::RSA_PKCS1_SHA256(rsa_keys.clone()),
                DigestAlgorithm::Sha384 => RSASigner::RSA_PKCS1_SHA384(rsa_keys.clone()),
                DigestAlgorithm::Sha512 => RSASigner::RSA_PKCS1_SHA512(rsa_keys.clone()),
            },
        }
    }

    /// The signer of all schemes with an RSA signer of the key pair with the
    /// digest and padding.
    pub fn from_rsa_keys_enum(
        rsa_keys: &RSAKeys,
        digest_algorithm: DigestAlgorithm,
        padding_scheme: PaddingScheme,
    ) -> (r: Result<SigStoreSigner>)
        ensures
            r matches Ok(s) && sigstore_rsa_signer(
                s,
                rsa_algorithm(digest_algorithm, padding_scheme),
                rsa_keys@,
            ),
            r matches Ok(s) && s.variant_algorithm() == rsa_algorithm(digest_algorithm, padding_scheme)
                && s.verification_key() == (
                rsa_algorithm(digest_algorithm, padding_scheme),
                rsa_keys@.1,
            ),
            r matches Ok(s) && rsa_algorithm_digest(s.variant_algorithm()) == Some(digest_algorithm)
                && rsa_algorithm_padding(s.variant_algorithm()) == Some(padding_scheme),
    {
        Ok(
            match padding_scheme {
                PaddingScheme::PSS => match digest_algorithm {
                    DigestAlgorithm::Sha256 => {
                        SigStoreSigner::RSA_PSS_SHA256(RSASigner::RSA_PSS_SHA256(rsa_keys.clone()))
                    },
                    DigestAlgorithm::Sha384 => {
                        SigStoreSigner::RSA_PSS_SHA384(RSASigner::RSA_PSS_SHA384(rsa_keys.clone()))
                    },
                    DigestAlgorithm::Sha512 => {
                        SigStoreSigner::RSA_PSS_SHA512(RSASigner::RSA_PSS_SHA512(rsa_keys.clone()))
                    },
                },
                PaddingScheme::PKCS1v15 => match digest_algorithm {
                    DigestAlgorithm::Sha256 => SigStoreSigner::RSA_PKCS1_SHA256(
                        RSASigner::RSA_PKCS1_SHA256(rsa_keys.clone()),
                    ),
                    DigestAlgorithm::Sha384 => SigStoreSigner::RSA_PKCS1_SHA384(
                        RSASigner::RSA_PKCS1_SHA384(rsa_keys.clone()),
                    ),
                    DigestAlgorithm::Sha512 => SigStoreSigner::RSA_PKCS1_SHA512(
                        RSASigner::RSA_PKCS1_SHA512(rsa_keys.clone()),
                    ),
                },
            },
        )
    }

    /// Return the ref to the [`RSAKeys`] inside the RSASigner
    pub fn rsa_keys(&self) -> (r: &RSAKeys)
        ensures
            r@ == self@.1,
    {
        match self {
            RSASigner::RSA_PSS_SHA256(key) => key,
            RSASigner::RSA_PSS_SHA384(key) => key,
            RSASigner::RSA_PSS_SHA512(key) => key,
            RSASigner::RSA_PKCS1_SHA256(key) => key,
            RSASigner::RSA_PKCS1_SHA384(key) => key,
            RSASigner::RSA_PKCS1_SHA512(key) => key,
        }
    }

    /// Return the ref to the [`KeyPair`] inside the RSASigner
    pub fn key_pair(&self) -> (r: &dyn KeyPair)
        ensures
            r.public_key_bytes() == self@.1.1,
            r.private_key_bytes() == self@.1.0,
            forall|scheme: SigningScheme| #[trigger] r.verification_key_for(scheme)
                == (scheme_algorithm(scheme), self@.1.1),
    {
        return self.rsa_keys();
    }

    /// Return the related [`CosignVerificationKey`] of this RSASigner: the
    /// public key with the signer's algorithm.
    pub fn to_verification_key(&self) -> (r: Result<CosignVerificationKey>)
        ensures
            r matches Ok(k) && k@ == (self@.0, self@.1.1),
    {
        let signing_scheme = match self {
            RSASigner::RSA_PSS_SHA256(_) => SigningScheme::RSA_PSS_SHA256(0),
            RSASigner::RSA_PSS_SHA384(_) => SigningScheme::RSA_PSS_SHA384(0),
            RSASigner::RSA_PSS_SHA512(_) => SigningScheme::RSA_PSS_SHA512(0),
            RSASigner::RSA_PKCS1_SHA256(_) => SigningScheme::RSA_PKCS1_SHA256(0),
            RSASigner::RSA_PKCS1_SHA384(_) => SigningScheme::RSA_PKCS1_SHA384(0),
            RSASigner::RSA_PKCS1_SHA512(_) => SigningScheme::RSA_PKCS1_SHA512(0),
        };
        self.rsa_keys().to_verification_key(&signing_scheme)
    }
}

impl Signer for RSASigner {
    /// `sign` will sign the given data, and return the signature.  The key
    /// always loads, as it was checked when it was made: see
    /// `rsa_sign_outcome` for what comes back.
    fn sign(&self, msg: &[u8]) -> (r: Result<Vec<u8>>)
        ensures
            r matches Ok(s) ==> signature_verifies(self@.0, self@.1.1, msg@, s@),
            rsa_sign_outcome(self@.0, self@.1, msg@, r),
    {
        let key = self.rsa_keys();
        let encoding = match self {
            RSASigner::RSA_PSS_SHA256(_) => RsaEncoding::PssSha256,
            RSASigner::RSA_PSS_SHA384(_) => RsaEncoding::PssSha384,
            RSASigner::RSA_PSS_SHA512(_) => RsaEncoding::PssSha512,
            RSASigner::RSA_PKCS1_SHA256(_) => RsaEncoding::Pkcs1Sha256,
            RSASigner::RSA_PKCS1_SHA384(_) => RsaEncoding::Pkcs1Sha384,
            RSASigner::RSA_PKCS1_SHA512(_) => RsaEncoding::Pkcs1Sha512,
        };
        assert(rsa_encoding_algorithm(encoding) == self@.0);
        assert(rsa_algorithm_encoding(self@.0) == encoding);
        key.reveal_well_formed();
        match rsa_sign_pkcs8(encoding, key.pkcs8_der(), msg) {
            Ok(signature) => Ok(signature),
            Err(SignFailure::KeyRejected(e)) => Err(
                SigstoreError::PKCS8Error(prefixed("Failed to load RSA key: ", e.as_str())),
            ),
            Err(SignFailure::Signing(e)) => Err(
                SigstoreError::PKCS8Error(prefixed("RSA signing failed: ", e.as_str())),
            ),
        }
    }
}

} // verus!
