//! Keys that verify signatures.

use vstd::prelude::*;
use vstd::slice::slice_to_vec;

use super::encoding::{base64_decode, base64_decoded, decimal, decimal_string};
use super::pem_codec::{pem_parse, pem_parsed};
use super::primitives::{signature_verifies, verify_with, EcdsaCurveId};
use super::signing_key::{KeyPair, SigStoreSigner};
use super::spki::{
    bytes_equal, ec_named_curve, ec_public_key_oid, ed25519_oid, named_curve, encode_spki_der, id_ec_public_key, oid_dotted,
    oid_to_string, parse_spki_der, rsa_encryption, rsa_encryption_oid, spki_der_encoding,
    spki_parsed, SpkiView, SubjectPublicKeyInfo, is_ec_spki,
};
use super::{is_rsa_algorithm, scheme_algorithm, KeyAlgorithm, Signature, SigningScheme};
use crate::errors::{Result, SigstoreError};

verus! {

/// A key that can be used to verify signatures.
///
/// Currently the following key formats are supported:
///
///   * RSA keys, using PSS padding and SHA-256 as the digest algorithm
///   * RSA keys, using PSS padding and SHA-384 as the digest algorithm
///   * RSA keys, using PSS padding and SHA-512 as the digest algorithm
///   * RSA keys, using PKCS1 padding and SHA-256 as the digest algorithm
///   * RSA keys, using PKCS1 padding and SHA-384 as the digest algorithm
///   * RSA keys, using PKCS1 padding and SHA-512 as the digest algorithm
///   * Ed25519 keys, and SHA-512 as the digest algorithm
///   * ECDSA keys, ASN.1 DER-encoded, using the P-256 curve and SHA-256 as digest algorithm
///   * ECDSA keys, ASN.1 DER-encoded, using the P-384 curve and SHA-384 as digest algorithm
#[allow(non_camel_case_types)]
#[derive(Debug, Clone)]
pub enum CosignVerificationKey {
    RSA_PSS_SHA256(Vec<u8>),
    RSA_PSS_SHA384(Vec<u8>),
    RSA_PSS_SHA512(Vec<u8>),
    RSA_PKCS1_SHA256(Vec<u8>),
    RSA_PKCS1_SHA384(Vec<u8>),
    RSA_PKCS1_SHA512(Vec<u8>),
    ECDSA_P256_SHA256_ASN1(Vec<u8>),
    ECDSA_P384_SHA384_ASN1(Vec<u8>),
    ED25519(Vec<u8>),
}

impl View for CosignVerificationKey {
    /// A verification key is its algorithm and its key bytes.
    type V = (KeyAlgorithm, Seq<u8>);

    open spec fn view(&self) -> (KeyAlgorithm, Seq<u8>) {
        match self {
            CosignVerificationKey::RSA_PSS_SHA256(k) => (KeyAlgorithm::RsaPssSha256, k@),
            CosignVerificationKey::RSA_PSS_SHA384(k) => (KeyAlgorithm::RsaPssSha384, k@),
            CosignVerificationKey::RSA_PSS_SHA512(k) => (KeyAlgorithm::RsaPssSha512, k@),
            CosignVerificationKey::RSA_PKCS1_SHA256(k) => (KeyAlgorithm::RsaPkcs1Sha256, k@),
            CosignVerificationKey::RSA_PKCS1_SHA384(k) => (KeyAlgorithm::RsaPkcs1Sha384, k@),
            CosignVerificationKey::RSA_PKCS1_SHA512(k) => (KeyAlgorithm::RsaPkcs1Sha512, k@),
            CosignVerificationKey::ECDSA_P256_SHA256_ASN1(k) => (
                KeyAlgorithm::EcdsaP256Sha256Asn1,
                k@,
            ),
            CosignVerificationKey::ECDSA_P384_SHA384_ASN1(k) => (
                KeyAlgorithm::EcdsaP384Sha384Asn1,
                k@,
            ),
            CosignVerificationKey::ED25519(k) => (KeyAlgorithm::Ed25519, k@),
        }
    }
}

/// The bytes of a signature: the raw bytes, or the Base64 decoding of the
/// text (the decoder's error where the text is not valid Base64).
pub open spec fn signature_bytes(signature: Signature) -> std::result::Result<Seq<u8>, base64::DecodeError> {
    match signature {
        Signature::Raw(data) => Ok(data@),
        Signature::Base64Encoded(data) => base64_decoded(data@),
    }
}

/// The outcome of checking a signature with a key: the Base64 error, the
/// verification error, or success.
pub open spec fn verification_outcome(
    key: (KeyAlgorithm, Seq<u8>),
    signature: Signature,
    msg: Seq<u8>,
    r: Result<()>,
) -> bool {
    match signature_bytes(signature) {
        Err(e) => r == Result::<()>::Err(SigstoreError::Base64DecodeError(e)),
        Ok(sig) => if signature_verifies(key.0, key.1, msg, sig) {
            r is Ok
        } else {
            r matches Err(SigstoreError::PublicKeyVerificationError)
        },
    }
}

/// The message of the error for an EC key of unsupported size.
pub open spec fn ec_size_message(len: nat) -> Seq<char> {
    "EC with size "@ + decimal(((len - 1) * 4) as nat) + " is not supported"@
}

/// The message of the error for a key of an unsupported algorithm.
pub open spec fn unsupported_oid_message(oid: Seq<u8>) -> Seq<char> {
    "Key with algorithm OID "@ + match oid_dotted(oid) {
        Some(t) => t,
        None => Seq::empty(),
    } + " is not supported"@
}

/// The verification key that an X.509 SubjectPublicKeyInfo converts to, or
/// the error of the conversion:
///   * EC keys: a key on the named curve P-256 verifies with SHA-256, one
///     on P-384 with SHA-384; other curves are unsupported (the message
///     gives the key's size);
///   * RSA keys: the whole DER encoding of the info, with PKCS#1 padding and
///     SHA-256;
///   * Ed25519 keys: the raw key bytes;
///   * other algorithms are unsupported.
pub open spec fn spki_conversion(spki: SpkiView, r: Result<CosignVerificationKey>) -> bool {
    let oid = spki.algorithm.oid;
    let len = spki.key.len();
    if oid == ec_public_key_oid() {
        match ec_named_curve(spki.algorithm.parameters) {
            Some(EcdsaCurveId::P256) => r matches Ok(k) && k@ == (
                KeyAlgorithm::EcdsaP256Sha256Asn1,
                spki.key,
            ),
            Some(EcdsaCurveId::P384) => r matches Ok(k) && k@ == (
                KeyAlgorithm::EcdsaP384Sha384Asn1,
                spki.key,
            ),
            None => r matches Err(SigstoreError::PublicKeyUnsupportedAlgorithmError(m)) && m@
                == ec_size_message(len),
        }
    } else if oid == rsa_encryption_oid() {
        match spki_der_encoding(spki) {
            Some(der) => r matches Ok(k) && k@ == (KeyAlgorithm::RsaPkcs1Sha256, der),
            None => r matches Err(SigstoreError::PKCS8SpkiError(m)) && m@.len() >= 30 && m@.take(
                30,
            ) == "Failed to encode SPKI to DER: "@,
        }
    } else if oid == ed25519_oid() {
        r matches Ok(k) && k@ == (KeyAlgorithm::Ed25519, spki.key)
    } else {
        r matches Err(SigstoreError::PublicKeyUnsupportedAlgorithmError(m)) && m@
            == unsupported_oid_message(oid)
    }
}

/// Whether an info of this algorithm and key length can be converted
/// without overflow in the size reported for an unsupported EC key.
pub open spec fn spki_size_reportable(spki: SpkiView) -> bool {
    spki.algorithm.oid == ec_public_key_oid() && ec_named_curve(spki.algorithm.parameters) is None
        ==> 1 <= spki.key.len() && (spki.key.len() - 1) * 4 <= usize::MAX
}

/// The verification key that DER-encoded public key data gives when its
/// type is read from the key itself, or the error:
///   * data that is not a SubjectPublicKeyInfo, or of an unknown algorithm,
///     cannot be parsed;
///   * EC keys on the named curve P-256 are P-256, on P-384 are P-384, and
///     other curves are unsupported;
///   * RSA keys use PKCS#1 padding and SHA-256; Ed25519 keys are Ed25519.
/// The key bytes are the whole DER data.
pub open spec fn der_detection(der: Seq<u8>, r: Result<CosignVerificationKey>) -> bool {
    match spki_parsed(der) {
        None => r matches Err(SigstoreError::InvalidKeyFormat { error }) && error@
            == "Failed to parse the public key."@,
        Some(spki) => {
            let oid = spki.algorithm.oid;
            let len = spki.key.len();
            if oid == ec_public_key_oid() {
                match ec_named_curve(spki.algorithm.parameters) {
                    Some(EcdsaCurveId::P256) => r matches Ok(k) && k@ == (
                        KeyAlgorithm::EcdsaP256Sha256Asn1,
                        der,
                    ),
                    Some(EcdsaCurveId::P384) => r matches Ok(k) && k@ == (
                        KeyAlgorithm::EcdsaP384Sha384Asn1,
                        der,
                    ),
                    None => r matches Err(SigstoreError::InvalidKeyFormat { error }) && error@
                        == "Unsupported EC key size"@,
                }
            } else if oid == rsa_encryption_oid() {
                r matches Ok(k) && k@ == (KeyAlgorithm::RsaPkcs1Sha256, der)
            } else if oid == ed25519_oid() {
                r matches Ok(k) && k@ == (KeyAlgorithm::Ed25519, der)
            } else {
                r matches Err(SigstoreError::InvalidKeyFormat { error }) && error@
                    == "Failed to parse the public key."@
            }
        },
    }
}

/// The verification key that DER data gives with the algorithm of a
/// signing scheme: the data itself as the key where it is a
/// SubjectPublicKeyInfo, and a format error where it is not.
pub open spec fn scheme_key(scheme: SigningScheme, der: Seq<u8>, r: Result<CosignVerificationKey>) -> bool {
    match spki_parsed(der) {
        None => r matches Err(SigstoreError::InvalidKeyFormat { error }) && error@
            == "Failed to parse the public key."@,
        Some(_) => r matches Ok(k) && k@ == (scheme_algorithm(scheme), der),
    }
}

/// Converting a SubjectPublicKeyInfo: the key's algorithm is the one the
/// info's algorithm names (RSA, with the whole info as the key, only for
/// rsaEncryption; Ed25519 only for id-Ed25519; P-256 or P-384 only for
/// id-ecPublicKey on that named curve, with the key's own bytes), and an
/// info of any other algorithm is unsupported.
pub proof fn law_spki_key_type(spki: SpkiView, r: Result<CosignVerificationKey>)
    requires
        spki_conversion(spki, r),
    ensures
        r matches Ok(k) ==> (k@.0 == KeyAlgorithm::RsaPkcs1Sha256 ==> spki.algorithm.oid
            == rsa_encryption_oid() && Some(k@.1) == spki_der_encoding(spki)),
        r matches Ok(k) ==> (k@.0 == KeyAlgorithm::Ed25519 ==> spki.algorithm.oid == ed25519_oid()
            && k@.1 == spki.key),
        r matches Ok(k) ==> (k@.0 == KeyAlgorithm::EcdsaP256Sha256Asn1 ==> spki.algorithm.oid
            == ec_public_key_oid() && ec_named_curve(spki.algorithm.parameters) == Some(
            EcdsaCurveId::P256,
        ) && k@.1 == spki.key),
        r matches Ok(k) ==> (k@.0 == KeyAlgorithm::EcdsaP384Sha384Asn1 ==> spki.algorithm.oid
            == ec_public_key_oid() && ec_named_curve(spki.algorithm.parameters) == Some(
            EcdsaCurveId::P384,
        ) && k@.1 == spki.key),
        r matches Ok(k) ==> k@.0 == KeyAlgorithm::RsaPkcs1Sha256 || k@.0 == KeyAlgorithm::Ed25519
            || k@.0 == KeyAlgorithm::EcdsaP256Sha256Asn1 || k@.0 == KeyAlgorithm::EcdsaP384Sha384Asn1,
        spki.algorithm.oid != ec_public_key_oid() && spki.algorithm.oid != rsa_encryption_oid()
            && spki.algorithm.oid != ed25519_oid() ==> r matches Err(
            SigstoreError::PublicKeyUnsupportedAlgorithmError(_),
        ),
{
}

/// Reading the key type from DER public key data: a key is given only for
/// a SubjectPublicKeyInfo, it is the data itself, and its algorithm is the
/// one the info's algorithm names: an RSA key only for rsaEncryption, an
/// Ed25519 key only for id-Ed25519, a P-256 or P-384 key only for
/// id-ecPublicKey on that named curve.  An info of any other algorithm, or
/// data that is not an info, gives a format error.
pub proof fn law_der_key_type(der: Seq<u8>, r: Result<CosignVerificationKey>)
    requires
        der_detection(der, r),
    ensures
        r matches Ok(k) ==> k@.1 == der && spki_parsed(der) is Some,
        r matches Ok(k) && k@.0 == KeyAlgorithm::RsaPkcs1Sha256 ==> spki_parsed(der).unwrap().algorithm.oid
            == rsa_encryption_oid(),
        r matches Ok(k) && k@.0 == KeyAlgorithm::Ed25519 ==> spki_parsed(der).unwrap().algorithm.oid
            == ed25519_oid(),
        r matches Ok(k) && k@.0 == KeyAlgorithm::EcdsaP256Sha256Asn1 ==> is_ec_spki(
            der,
            EcdsaCurveId::P256,
        ),
        r matches Ok(k) && k@.0 == KeyAlgorithm::EcdsaP384Sha384Asn1 ==> is_ec_spki(
            der,
            EcdsaCurveId::P384,
        ),
        r matches Ok(k) ==> k@.0 == KeyAlgorithm::RsaPkcs1Sha256 || k@.0 == KeyAlgorithm::Ed25519
            || k@.0 == KeyAlgorithm::EcdsaP256Sha256Asn1 || k@.0 == KeyAlgorithm::EcdsaP384Sha384Asn1,
        r is Err ==> r matches Err(SigstoreError::InvalidKeyFormat { .. }),
        spki_parsed(der) is Some && spki_parsed(der).unwrap().algorithm.oid != ec_public_key_oid()
            && spki_parsed(der).unwrap().algorithm.oid != rsa_encryption_oid() && spki_parsed(
            der,
        ).unwrap().algorithm.oid != ed25519_oid() ==> r is Err,
{
}

/// A signature given as Base64 text is checked exactly as its decoding is
/// checked as raw bytes: with the same key and message, the two checks
/// succeed together, and fail with the same verification error.
pub proof fn law_base64_signature_is_its_decoding(
    key: (KeyAlgorithm, Seq<u8>),
    text: &[u8],
    raw: &[u8],
    msg: Seq<u8>,
    r_text: Result<()>,
    r_raw: Result<()>,
)
    requires
        base64_decoded(text@) matches Ok(bytes) && bytes == raw@,
        verification_outcome(key, Signature::Base64Encoded(text), msg, r_text),
        verification_outcome(key, Signature::Raw(raw), msg, r_raw),
    ensures
        r_text is Ok <==> r_raw is Ok,
        r_text is Ok <==> signature_verifies(key.0, key.1, msg, raw@),
        r_text is Err ==> r_text matches Err(SigstoreError::PublicKeyVerificationError),
{
}

/// A signature that a signer makes of a message is accepted when it is
/// checked, as raw bytes, with the same message under the signer's
/// verification key.
pub proof fn law_signer_signature_verifies(
    signer: SigStoreSigner,
    msg: Seq<u8>,
    sig: &[u8],
    r: Result<()>,
)
    requires
        signer.made_signature(msg, sig@),
        verification_outcome(signer.verification_key(), Signature::Raw(sig), msg, r),
    ensures
        r is Ok,
{
}

/// The value bytes of the OID 1.3.101.112 (id-Ed25519).
fn ed25519_oid_bytes() -> (r: Vec<u8>)
    ensures
        r@ == ed25519_oid(),
{
    let r = vec![0x2bu8, 0x65u8, 0x70u8];
    assert(r@ == ed25519_oid());
    r
}

impl CosignVerificationKey {
    /// Attempts to convert an X.509 Subject Public Key Info into a
    /// `CosignVerificationKey`.
    ///
    /// Currently can convert only the following types of keys:
    ///   * ECDSA P-256: assumes the SHA-256 digest algorithm is used
    ///   * ECDSA P-384: assumes the SHA-384 digest algorithm is used
    ///   * RSA: assumes PKCS1 padding is used
    ///   * Ed25519
    pub fn try_from(subject_pub_key_info: &SubjectPublicKeyInfo) -> (r: Result<Self>)
        requires
            spki_size_reportable(subject_pub_key_info@),
        ensures
            spki_conversion(subject_pub_key_info@, r),
            r matches Ok(k) ==> (k@.0 == KeyAlgorithm::RsaPkcs1Sha256 ==> subject_pub_key_info@.algorithm.oid
                == rsa_encryption_oid() && Some(k@.1) == spki_der_encoding(subject_pub_key_info@)),
            r matches Ok(k) ==> (k@.0 == KeyAlgorithm::Ed25519 ==> subject_pub_key_info@.algorithm.oid == ed25519_oid()
                && k@.1 == subject_pub_key_info@.key),
            r matches Ok(k) ==> (k@.0 == KeyAlgorithm::EcdsaP256Sha256Asn1 ==> subject_pub_key_info@.algorithm.oid
                == ec_public_key_oid() && ec_named_curve(subject_pub_key_info@.algorithm.parameters) == Some(
                EcdsaCurveId::P256,
            ) && k@.1 == subject_pub_key_info@.key),
            r matches Ok(k) ==> (k@.0 == KeyAlgorithm::EcdsaP384Sha384Asn1 ==> subject_pub_key_info@.algorithm.oid
                == ec_public_key_oid() && ec_named_curve(subject_pub_key_info@.algorithm.parameters) == Some(
                EcdsaCurveId::P384,
            ) && k@.1 == subject_pub_key_info@.key),
            r matches Ok(k) ==> k@.0 == KeyAlgorithm::RsaPkcs1Sha256 || k@.0 == KeyAlgorithm::Ed25519
                || k@.0 == KeyAlgorithm::EcdsaP256Sha256Asn1 || k@.0 == KeyAlgorithm::EcdsaP384Sha384Asn1,
            subject_pub_key_info@.algorithm.oid != ec_public_key_oid() && subject_pub_key_info@.algorithm.oid != rsa_encryption_oid()
                && subject_pub_key_info@.algorithm.oid != ed25519_oid() ==> r matches Err(
                SigstoreError::PublicKeyUnsupportedAlgorithmError(_),
            ),
    {
        let algorithm = &subject_pub_key_info.algorithm.oid;
        let public_key_der = &subject_pub_key_info.subject_public_key;
        let ec = id_ec_public_key();
        let rsa = rsa_encryption();
        let ed = ed25519_oid_bytes();
        if bytes_equal(algorithm.as_slice(), ec.as_slice()) {
            let len = public_key_der.len();
            let curve = named_curve(&subject_pub_key_info.algorithm);
            if let Some(EcdsaCurveId::P256) = curve {
                Ok(CosignVerificationKey::ECDSA_P256_SHA256_ASN1(slice_to_vec(public_key_der.as_slice())))
            } else if let Some(EcdsaCurveId::P384) = curve {
                Ok(CosignVerificationKey::ECDSA_P384_SHA384_ASN1(slice_to_vec(public_key_der.as_slice())))
            } else {
                let mut message = String::from_str("EC with size ");
                let size = decimal_string((len - 1) * 4);
                message.append(size.as_str());
                message.append(" is not supported");
                Err(SigstoreError::PublicKeyUnsupportedAlgorithmError(message))
            }
        } else if bytes_equal(algorithm.as_slice(), rsa.as_slice()) {
            match encode_spki_der(subject_pub_key_info) {
                Ok(spki_der) => Ok(CosignVerificationKey::RSA_PKCS1_SHA256(spki_der)),
                Err(e) => {
                    let mut message = String::from_str("Failed to encode SPKI to DER: ");
                    proof {
                        reveal_strlit("Failed to encode SPKI to DER: ");
                    }
                    message.append(e.as_str());
                    assert(message@.take(30) =~= "Failed to encode SPKI to DER: "@);
                    Err(SigstoreError::PKCS8SpkiError(message))
                },
            }
        } else if bytes_equal(algorithm.as_slice(), ed.as_slice()) {
            Ok(CosignVerificationKey::ED25519(slice_to_vec(public_key_der.as_slice())))
        } else {
            let mut message = String::from_str("Key with algorithm OID ");
            match oid_to_string(algorithm.as_slice()) {
                Some(text) => message.append(text.as_str()),
                None => {},
            }
            message.append(" is not supported");
            Err(SigstoreError::PublicKeyUnsupportedAlgorithmError(message))
        }
    }

    /// Builds a [`CosignVerificationKey`] from DER-encoded data, taking the
    /// algorithm from the signing scheme.  The data must be a
    /// SubjectPublicKeyInfo, which is extracted from it; the key bytes are
    /// the data itself.
    pub fn from_der(der_data: &[u8], signing_scheme: &SigningScheme) -> (r: Result<Self>)
        ensures
            scheme_key(*signing_scheme, der_data@, r),
            r matches Ok(k) ==> k@ == (scheme_algorithm(*signing_scheme), der_data@) && spki_parsed(
                der_data@,
            ) is Some,
            spki_parsed(der_data@) is None ==> r matches Err(SigstoreError::InvalidKeyFormat { .. }),
    {
        if parse_spki_der(der_data).is_err() {
            return Err(
                SigstoreError::InvalidKeyFormat {
                    error: String::from_str("Failed to parse the public key."),
                },
            );
        }
        Ok(
            match signing_scheme {
                SigningScheme::RSA_PSS_SHA256(_) => {
                    CosignVerificationKey::RSA_PSS_SHA256(slice_to_vec(der_data))
                },
                SigningScheme::RSA_PSS_SHA384(_) => {
                    CosignVerificationKey::RSA_PSS_SHA384(slice_to_vec(der_data))
                },
                SigningScheme::RSA_PSS_SHA512(_) => {
                    CosignVerificationKey::RSA_PSS_SHA512(slice_to_vec(der_data))
                },
                SigningScheme::RSA_PKCS1_SHA256(_) => {
                    CosignVerificationKey::RSA_PKCS1_SHA256(slice_to_vec(der_data))
                },
                SigningScheme::RSA_PKCS1_SHA384(_) => {
                    CosignVerificationKey::RSA_PKCS1_SHA384(slice_to_vec(der_data))
                },
                SigningScheme::RSA_PKCS1_SHA512(_) => {
                    CosignVerificationKey::RSA_PKCS1_SHA512(slice_to_vec(der_data))
                },
                SigningScheme::ECDSA_P256_SHA256_ASN1 => {
                    CosignVerificationKey::ECDSA_P256_SHA256_ASN1(slice_to_vec(der_data))
                },
                SigningScheme::ECDSA_P384_SHA384_ASN1 => {
                    CosignVerificationKey::ECDSA_P384_SHA384_ASN1(slice_to_vec(der_data))
                },
                SigningScheme::ED25519 => { CosignVerificationKey::ED25519(slice_to_vec(der_data))
                },
            },
        )
    }

    /// Builds a [`CosignVerificationKey`] from DER-encoded public key data,
    /// with the verification algorithm set by the public key's type:
    /// * `RSA public key`: `RSA_PKCS1_SHA256`
    /// * `EC public key with P-256 curve`: `ECDSA_P256_SHA256_ASN1`
    /// * `EC public key with P-384 curve`: `ECDSA_P384_SHA384_ASN1`
    /// * `Ed25519 public key`: `Ed25519`
    pub fn try_from_der(der_data: &[u8]) -> (r: Result<Self>)
        ensures
            der_detection(der_data@, r),
            r matches Ok(k) ==> k@.1 == der_data@ && spki_parsed(der_data@) is Some,
            r matches Ok(k) && k@.0 == KeyAlgorithm::RsaPkcs1Sha256 ==> spki_parsed(der_data@).unwrap().algorithm.oid
                == rsa_encryption_oid(),
            r matches Ok(k) && k@.0 == KeyAlgorithm::Ed25519 ==> spki_parsed(der_data@).unwrap().algorithm.oid
                == ed25519_oid(),
            r matches Ok(k) && k@.0 == KeyAlgorithm::EcdsaP256Sha256Asn1 ==> is_ec_spki(
                der_data@,
                EcdsaCurveId::P256,
            ),
            r matches Ok(k) && k@.0 == KeyAlgorithm::EcdsaP384Sha384Asn1 ==> is_ec_spki(
                der_data@,
                EcdsaCurveId::P384,
            ),
            r matches Ok(k) ==> k@.0 == KeyAlgorithm::RsaPkcs1Sha256 || k@.0 == KeyAlgorithm::Ed25519
                || k@.0 == KeyAlgorithm::EcdsaP256Sha256Asn1 || k@.0 == KeyAlgorithm::EcdsaP384Sha384Asn1,
            r is Err ==> r matches Err(SigstoreError::InvalidKeyFormat { .. }),
            spki_parsed(der_data@) is Some && spki_parsed(der_data@).unwrap().algorithm.oid != ec_public_key_oid()
                && spki_parsed(der_data@).unwrap().algorithm.oid != rsa_encryption_oid() && spki_parsed(
                der_data@,
            ).unwrap().algorithm.oid != ed25519_oid() ==> r is Err,
    {
        match parse_spki_der(der_data) {
            Ok(spki) => {
                let algorithm = &spki.algorithm.oid;
                let ec = id_ec_public_key();
                let rsa = rsa_encryption();
                let ed = ed25519_oid_bytes();
                if bytes_equal(algorithm.as_slice(), ec.as_slice()) {
                    let curve = named_curve(&spki.algorithm);
                    if let Some(EcdsaCurveId::P256) = curve {
                        Ok(Self::ECDSA_P256_SHA256_ASN1(slice_to_vec(der_data)))
                    } else if let Some(EcdsaCurveId::P384) = curve {
                        Ok(Self::ECDSA_P384_SHA384_ASN1(slice_to_vec(der_data)))
                    } else {
                        Err(
                            SigstoreError::InvalidKeyFormat {
                                error: String::from_str("Unsupported EC key size"),
                            },
                        )
                    }
                } else if bytes_equal(algorithm.as_slice(), rsa.as_slice()) {
                    Ok(Self::RSA_PKCS1_SHA256(slice_to_vec(der_data)))
                } else if bytes_equal(algorithm.as_slice(), ed.as_slice()) {
                    Ok(Self::ED25519(slice_to_vec(der_data)))
                } else {
                    Err(
                        SigstoreError::InvalidKeyFormat {
                            error: String::from_str("Failed to parse the public key."),
                        },
                    )
                }
            },
            Err(_) => Err(
                SigstoreError::InvalidKeyFormat {
                    error: String::from_str("Failed to parse the public key."),
                },
            ),
        }
    }

    /// Builds a [`CosignVerificationKey`] from PEM-encoded data: the
    /// contents of the PEM block are taken as DER data for
    /// [`CosignVerificationKey::from_der`], whatever the block's label.
    pub fn from_pem(pem_data: &[u8], signing_scheme: &SigningScheme) -> (r: Result<Self>)
        ensures
            match pem_parsed(pem_data@) {
                None => r matches Err(SigstoreError::PEMParseError(_)),
                Some((_, contents)) => scheme_key(*signing_scheme, contents, r),
            },
    {
        match pem_parse(pem_data) {
            Ok(key_pem) => Self::from_der(key_pem.contents.as_slice(), signing_scheme),
            Err(e) => Err(SigstoreError::PEMParseError(e)),
        }
    }

    /// Builds a [`CosignVerificationKey`] from PEM-encoded public key data,
    /// with the verification algorithm read from the key as
    /// [`CosignVerificationKey::try_from_der`] does.
    pub fn try_from_pem(pem_data: &[u8]) -> (r: Result<Self>)
        ensures
            match pem_parsed(pem_data@) {
                None => r matches Err(SigstoreError::PEMParseError(_)),
                Some((_, contents)) => der_detection(contents, r),
            },
    {
        match pem_parse(pem_data) {
            Ok(key_pem) => Self::try_from_der(key_pem.contents.as_slice()),
            Err(e) => Err(SigstoreError::PEMParseError(e)),
        }
    }

    /// Builds a `CosignVerificationKey` from [`SigStoreSigner`]. The methods will derive
    /// a `CosignVerificationKey` from the given [`SigStoreSigner`]'s public key.
    pub fn from_sigstore_signer(signer: &SigStoreSigner) -> (r: Result<Self>)
        ensures
            r matches Ok(k) && k@ == signer.verification_key(),
    {
        signer.to_verification_key()
    }

    /// Builds a `CosignVerificationKey` from [`KeyPair`]. The methods will derive
    /// a `CosignVerificationKey` from the given [`KeyPair`]'s public key.
    pub fn from_key_pair(signer: &dyn KeyPair, signing_scheme: &SigningScheme) -> (r: Result<Self>)
        ensures
            r matches Ok(k) && k@ == signer.verification_key_for(*signing_scheme),
    {
        signer.to_verification_key(signing_scheme)
    }

    /// Verify the signature provided has been actually generated by the given key
    /// when signing the provided message.
    pub fn verify_signature(&self, signature: Signature, msg: &[u8]) -> (r: Result<()>)
        ensures
            verification_outcome(self@, signature, msg@, r),
            match signature {
                Signature::Raw(data) => (r is Ok <==> signature_verifies(self@.0, self@.1, msg@, data@))
                    && (r is Err ==> r matches Err(SigstoreError::PublicKeyVerificationError)),
                Signature::Base64Encoded(data) => match base64_decoded(data@) {
                    Ok(bytes) => (r is Ok <==> signature_verifies(self@.0, self@.1, msg@, bytes)) && (
                    r is Err ==> r matches Err(SigstoreError::PublicKeyVerificationError)),
                    Err(e) => r == Result::<()>::Err(SigstoreError::Base64DecodeError(e)),
                },
            },
    {
        let sig = match signature {
            Signature::Raw(data) => slice_to_vec(data),
            Signature::Base64Encoded(data) => match base64_decode(data) {
                Ok(bytes) => bytes,
                Err(e) => return Err(SigstoreError::Base64DecodeError(e)),
            },
        };
        let verified = match self {
            CosignVerificationKey::RSA_PSS_SHA256(key) => {
                verify_with(KeyAlgorithm::RsaPssSha256, key.as_slice(), msg, sig.as_slice())
            },
            CosignVerificationKey::RSA_PSS_SHA384(key) => {
                verify_with(KeyAlgorithm::RsaPssSha384, key.as_slice(), msg, sig.as_slice())
            },
            CosignVerificationKey::RSA_PSS_SHA512(key) => {
                verify_with(KeyAlgorithm::RsaPssSha512, key.as_slice(), msg, sig.as_slice())
            },
            CosignVerificationKey::RSA_PKCS1_SHA256(key) => {
                verify_with(KeyAlgorithm::RsaPkcs1Sha256, key.as_slice(), msg, sig.as_slice())
            },
            CosignVerificationKey::RSA_PKCS1_SHA384(key) => {
                verify_with(KeyAlgorithm::RsaPkcs1Sha384, key.as_slice(), msg, sig.as_slice())
            },
            CosignVerificationKey::RSA_PKCS1_SHA512(key) => {
                verify_with(KeyAlgorithm::RsaPkcs1Sha512, key.as_slice(), msg, sig.as_slice())
            },
            CosignVerificationKey::ECDSA_P256_SHA256_ASN1(key) => {
                verify_with(KeyAlgorithm::EcdsaP256Sha256Asn1, key.as_slice(), msg, sig.as_slice())
            },
            CosignVerificationKey::ECDSA_P384_SHA384_ASN1(key) => {
                verify_with(KeyAlgorithm::EcdsaP384Sha384Asn1, key.as_slice(), msg, sig.as_slice())
            },
            CosignVerificationKey::ED25519(key) => {
                verify_with(KeyAlgorithm::Ed25519, key.as_slice(), msg, sig.as_slice())
            },
        };
        if verified {
            Ok(())
        } else {
            Err(SigstoreError::PublicKeyVerificationError)
        }
    }

    /// Verify the signature provided has been actually generated by the given key
    /// when signing the provided prehashed message.  RSA keys check it as
    /// [`CosignVerificationKey::verify_signature`] does; ECDSA and Ed25519
    /// keys do not support prehashed messages and always report a
    /// verification error once the signature is decoded.
    pub(crate) fn verify_prehash(&self, signature: Signature, msg: &[u8]) -> (r: Result<()>)
        ensures
            is_rsa_algorithm(self@.0) ==> verification_outcome(self@, signature, msg@, r),
            is_rsa_algorithm(self@.0) ==> match signature {
                Signature::Raw(data) => (r is Ok <==> signature_verifies(self@.0, self@.1, msg@, data@)),
                Signature::Base64Encoded(data) => match base64_decoded(data@) {
                    Ok(bytes) => (r is Ok <==> signature_verifies(self@.0, self@.1, msg@, bytes)),
                    Err(e) => r == Result::<()>::Err(SigstoreError::Base64DecodeError(e)),
                },
            },
            !is_rsa_algorithm(self@.0) ==> match signature_bytes(signature) {
                Err(e) => r == Result::<()>::Err(SigstoreError::Base64DecodeError(e)),
                Ok(_) => r matches Err(SigstoreError::PublicKeyVerificationError),
            },
    {
        let sig = match signature {
            Signature::Raw(data) => slice_to_vec(data),
            Signature::Base64Encoded(data) => match base64_decode(data) {
                Ok(bytes) => bytes,
                Err(e) => return Err(SigstoreError::Base64DecodeError(e)),
            },
        };
        let verified = match self {
            CosignVerificationKey::RSA_PSS_SHA256(key) => {
                verify_with(KeyAlgorithm::RsaPssSha256, key.as_slice(), msg, sig.as_slice())
            },
            CosignVerificationKey::RSA_PSS_SHA384(key) => {
                verify_with(KeyAlgorithm::RsaPssSha384, key.as_slice(), msg, sig.as_slice())
            },
            CosignVerificationKey::RSA_PSS_SHA512(key) => {
                verify_with(KeyAlgorithm::RsaPssSha512, key.as_slice(), msg, sig.as_slice())
            },
            CosignVerificationKey::RSA_PKCS1_SHA256(key) => {
                verify_with(KeyAlgorithm::RsaPkcs1Sha256, key.as_slice(), msg, sig.as_slice())
            },
            CosignVerificationKey::RSA_PKCS1_SHA384(key) => {
                verify_with(KeyAlgorithm::RsaPkcs1Sha384, key.as_slice(), msg, sig.as_slice())
            },
            CosignVerificationKey::RSA_PKCS1_SHA512(key) => {
                verify_with(KeyAlgorithm::RsaPkcs1Sha512, key.as_slice(), msg, sig.as_slice())
            },
            CosignVerificationKey::ECDSA_P256_SHA256_ASN1(_) => false,
            CosignVerificationKey::ECDSA_P384_SHA384_ASN1(_) => false,
            CosignVerificationKey::ED25519(_) => false,
        };
        if verified {
            Ok(())
        } else {
            Err(SigstoreError::PublicKeyVerificationError)
        }
    }
}

} // verus!
