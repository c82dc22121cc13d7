//! The signature algorithms of `aws-lc-rs`: verification, key parsing, key
//! generation and signing.  Results that take pages to state are named by
//! uninterpreted functions; of results that rest on chance only what holds of
//! every outcome is said.

use aws_lc_rs::encoding::AsDer;
use aws_lc_rs::rand::SystemRandom;
use aws_lc_rs::rsa::KeySize;
use aws_lc_rs::signature::{
    EcdsaKeyPair, Ed25519KeyPair, KeyPair as _, RsaKeyPair, ECDSA_P256_SHA256_ASN1_SIGNING,
    ECDSA_P384_SHA384_ASN1_SIGNING, RSA_PKCS1_SHA256, RSA_PKCS1_SHA384, RSA_PKCS1_SHA512,
    RSA_PSS_SHA256, RSA_PSS_SHA384, RSA_PSS_SHA512, UnparsedPublicKey, VerificationAlgorithm, ECDSA_P256_SHA256_ASN1,
    ECDSA_P384_SHA384_ASN1, ED25519, RSA_PKCS1_2048_8192_SHA256, RSA_PKCS1_2048_8192_SHA384,
    RSA_PKCS1_2048_8192_SHA512, RSA_PSS_2048_8192_SHA256, RSA_PSS_2048_8192_SHA384,
    RSA_PSS_2048_8192_SHA512,
};
use vstd::prelude::*;

use crate::crypto::spki::{ed25519_algorithm_id, is_ec_spki, is_rsa_spki, private_key_info_parsed};
use crate::crypto::KeyAlgorithm;

verus! {

/// Whether `UnparsedPublicKey::new(alg, key).verify(msg, sig)` accepts the
/// signature: a function of the algorithm, the key, the message and the
/// signature alone.
pub uninterp spec fn signature_verifies(
    alg: KeyAlgorithm,
    key: Seq<u8>,
    msg: Seq<u8>,
    sig: Seq<u8>,
) -> bool;

/// `UnparsedPublicKey::new(alg, key).verify(msg, sig)`, with `alg` the
/// aws-lc-rs verification algorithm that `alg` names (RSA keys of 2048 to
/// 8192 bits): `true` where it returns `Ok`, as named by
/// `signature_verifies`.
#[verifier::external_body]
pub fn verify_with(alg: KeyAlgorithm, key: &[u8], msg: &[u8], sig: &[u8]) -> (r: bool)
    ensures
        r == signature_verifies(alg, key@, msg@, sig@),
{
    let algorithm: &'static dyn VerificationAlgorithm = match alg {
        KeyAlgorithm::RsaPssSha256 => &RSA_PSS_2048_8192_SHA256,
        KeyAlgorithm::RsaPssSha384 => &RSA_PSS_2048_8192_SHA384,
        KeyAlgorithm::RsaPssSha512 => &RSA_PSS_2048_8192_SHA512,
        KeyAlgorithm::RsaPkcs1Sha256 => &RSA_PKCS1_2048_8192_SHA256,
        KeyAlgorithm::RsaPkcs1Sha384 => &RSA_PKCS1_2048_8192_SHA384,
        KeyAlgorithm::RsaPkcs1Sha512 => &RSA_PKCS1_2048_8192_SHA512,
        KeyAlgorithm::EcdsaP256Sha256Asn1 => &ECDSA_P256_SHA256_ASN1,
        KeyAlgorithm::EcdsaP384Sha384Asn1 => &ECDSA_P384_SHA384_ASN1,
        KeyAlgorithm::Ed25519 => &ED25519,
    };
    UnparsedPublicKey::new(algorithm, key).verify(msg, sig).is_ok()
}

/// The curves of ECDSA keys.
#[derive(Debug, Clone, Copy)]
pub enum EcdsaCurveId {
    P256,
    P384,
}

/// Why signing failed: the key could not be loaded, or signing itself
/// failed; each with the error's text.  aws-lc-rs reports a signing
/// failure as `error::Unspecified`, whose text is `Unspecified`.
#[derive(Debug)]
pub enum SignFailure {
    KeyRejected(String),
    Signing(String),
}

/// Why producing a fresh PKCS#8 document failed: generating the key, or
/// encoding it; each with the error's text.  aws-lc-rs reports both as
/// `error::Unspecified`, whose text is `Unspecified`.
#[derive(Debug)]
pub enum GenerateFailure {
    Generation(String),
    Encoding(String),
}

/// The algorithm that verifies the ASN.1 ECDSA signatures made on the
/// curve: SHA-256 for P-256, SHA-384 for P-384.
pub open spec fn ecdsa_algorithm(curve: EcdsaCurveId) -> KeyAlgorithm {
    match curve {
        EcdsaCurveId::P256 => KeyAlgorithm::EcdsaP256Sha256Asn1,
        EcdsaCurveId::P384 => KeyAlgorithm::EcdsaP384Sha384Asn1,
    }
}

/// The public key, as a DER X.509 SubjectPublicKeyInfo
/// (`public_key().as_der()`), of the PKCS#8 document that
/// `EcdsaKeyPair::from_pkcs8` accepts for the curve, or `None` where a step
/// fails.
pub uninterp spec fn ecdsa_pkcs8_public_key(curve: EcdsaCurveId, der: Seq<u8>) -> Option<Seq<u8>>;

/// `EcdsaKeyPair::generate_pkcs8` for the curve's ASN.1 signing algorithm:
/// a fresh random key as a PKCS#8 v1 document, or the error's text (it
/// fails with `error::Unspecified`, whose text is `Unspecified`).  The
/// key rests on chance; what is said of it is that it is a key of the
/// curve, so that `from_pkcs8` for the curve loads it and its public key
/// can be encoded.
#[verifier::external_body]
pub fn ecdsa_generate_pkcs8(curve: EcdsaCurveId) -> (r: Result<Vec<u8>, String>)
    ensures
        r matches Ok(d) ==> ecdsa_pkcs8_public_key(curve, d@) is Some,
        r matches Err(e) ==> e@ == "Unspecified"@,
{
    let alg = match curve {
        EcdsaCurveId::P256 => &ECDSA_P256_SHA256_ASN1_SIGNING,
        EcdsaCurveId::P384 => &ECDSA_P384_SHA384_ASN1_SIGNING,
    };
    match EcdsaKeyPair::generate_pkcs8(alg, &SystemRandom::new()) {
        Ok(doc) => Ok(doc.as_ref().to_vec()),
        Err(e) => Err(e.to_string()),
    }
}

/// `EcdsaKeyPair::from_pkcs8` for the curve, then `public_key().as_der()`:
/// the DER SubjectPublicKeyInfo of the document's public key (named by
/// `ecdsa_pkcs8_public_key`), or the error's text.  aws-lc writes it as an
/// X.509 SubjectPublicKeyInfo of id-ecPublicKey with the named curve.
#[verifier::external_body]
pub fn ecdsa_public_key_from_pkcs8(curve: EcdsaCurveId, der: &[u8]) -> (r: Result<Vec<u8>, String>)
    ensures
        r is Ok <==> ecdsa_pkcs8_public_key(curve, der@) is Some,
        r matches Ok(p) ==> p@ == ecdsa_pkcs8_public_key(curve, der@).unwrap(),
        r matches Ok(p) ==> is_ec_spki(p@, curve),
{
    let alg = match curve {
        EcdsaCurveId::P256 => &ECDSA_P256_SHA256_ASN1_SIGNING,
        EcdsaCurveId::P384 => &ECDSA_P384_SHA384_ASN1_SIGNING,
    };
    let key_pair = EcdsaKeyPair::from_pkcs8(alg, der).map_err(|e| e.to_string())?;
    match key_pair.public_key().as_der() {
        Ok(spki) => Ok(spki.as_ref().to_vec()),
        Err(e) => Err(e.to_string()),
    }
}

/// `EcdsaKeyPair::from_pkcs8` for the curve, then `sign` of the message:
/// an ASN.1 DER signature, or why it failed.  A document whose public key
/// is named loads.  The signature rests on chance, so its bytes are left
/// free; what is said of it is what an ECDSA signature is: an ASN.1
/// `SEQUENCE` (first octet `0x30`) that verifies, with the curve's ASN.1
/// verification algorithm (the same curve and digest), under the key
/// pair's public key.
#[verifier::external_body]
pub fn ecdsa_sign_pkcs8(curve: EcdsaCurveId, der: &[u8], msg: &[u8]) -> (r: Result<Vec<u8>, SignFailure>)
    ensures
        ecdsa_pkcs8_public_key(curve, der@) is Some ==> !(r matches Err(SignFailure::KeyRejected(_))),
        r matches Err(SignFailure::Signing(e)) ==> e@ == "Unspecified"@,
        r matches Ok(s) ==> s@.len() > 0 && s@[0] == 0x30u8,
        r matches Ok(s) ==> (ecdsa_pkcs8_public_key(curve, der@) is Some ==> signature_verifies(
            ecdsa_algorithm(curve),
            ecdsa_pkcs8_public_key(curve, der@).unwrap(),
            msg@,
            s@,
        )),
{
    let alg = match curve {
        EcdsaCurveId::P256 => &ECDSA_P256_SHA256_ASN1_SIGNING,
        EcdsaCurveId::P384 => &ECDSA_P384_SHA384_ASN1_SIGNING,
    };
    let key_pair = EcdsaKeyPair::from_pkcs8(alg, der).map_err(|e| SignFailure::KeyRejected(e.to_string()))?;
    match key_pair.sign(&SystemRandom::new(), msg) {
        Ok(signature) => Ok(signature.as_ref().to_vec()),
        Err(e) => Err(SignFailure::Signing(e.to_string())),
    }
}

/// The raw 32-byte public key of the PKCS#8 document that
/// `Ed25519KeyPair::from_pkcs8` accepts, or `None` where it rejects it.
pub uninterp spec fn ed25519_pkcs8_public_key(der: Seq<u8>) -> Option<Seq<u8>>;

/// The signature that `Ed25519KeyPair::try_sign` gives for the message with
/// the key of the PKCS#8 document (Ed25519 signing is deterministic), or
/// `None` where it reports an error.
pub uninterp spec fn ed25519_signature(der: Seq<u8>, msg: Seq<u8>) -> Option<Seq<u8>>;

/// `Ed25519KeyPair::generate_pkcs8`: a fresh random key as a PKCS#8 v2
/// document, or the error's text (`Unspecified`, as for `error::Unspecified`).  The key rests on chance; what is said of
/// it is what a v2 document of a valid key is: `from_pkcs8` loads it (a
/// 32-byte public key), `pkcs8::PrivateKeyInfo` reads it with the Ed25519
/// algorithm identifier (RFC 8410: id-Ed25519, no parameters), and the
/// public key written in it (the `publicKey` field) is the one derived from
/// the private key, which `from_pkcs8` checks for v2 documents.
#[verifier::external_body]
pub fn ed25519_generate_pkcs8() -> (r: Result<Vec<u8>, String>)
    ensures
        r matches Err(e) ==> e@ == "Unspecified"@,
        r matches Ok(d) ==> ed25519_pkcs8_public_key(d@) is Some && ed25519_pkcs8_public_key(
            d@,
        ).unwrap().len() == 32 && private_key_info_parsed(d@) is Some && private_key_info_parsed(
            d@,
        ).unwrap().public_key == ed25519_pkcs8_public_key(d@) && private_key_info_parsed(
            d@,
        ).unwrap().algorithm == ed25519_algorithm_id(),
{
    match Ed25519KeyPair::generate_pkcs8(&SystemRandom::new()) {
        Ok(doc) => Ok(doc.as_ref().to_vec()),
        Err(e) => Err(e.to_string()),
    }
}

/// `Ed25519KeyPair::from_pkcs8`, then `public_key().as_ref()`: the raw
/// public key (named by `ed25519_pkcs8_public_key`, 32 bytes as the crate's
/// `ED25519_PUBLIC_KEY_LEN` gives), or the rejection's text.  A document it
/// accepts has the Ed25519 algorithm identifier: aws-lc checks the OID and
/// that the parameters are absent (RFC 8410), so where
/// `pkcs8::PrivateKeyInfo` also reads it, it reads that identifier.
#[verifier::external_body]
pub fn ed25519_public_key_from_pkcs8(der: &[u8]) -> (r: Result<Vec<u8>, String>)
    ensures
        r is Ok <==> ed25519_pkcs8_public_key(der@) is Some,
        r matches Ok(p) ==> p@ == ed25519_pkcs8_public_key(der@).unwrap() && p@.len() == 32,
        r is Ok ==> (private_key_info_parsed(der@) is Some ==> private_key_info_parsed(
            der@,
        ).unwrap().algorithm == ed25519_algorithm_id()),
{
    match Ed25519KeyPair::from_pkcs8(der) {
        Ok(key_pair) => Ok(key_pair.public_key().as_ref().to_vec()),
        Err(e) => Err(e.to_string()),
    }
}

/// `Ed25519KeyPair::from_pkcs8`, then `try_sign` of the message: the
/// signature (named by `ed25519_signature`; 64 bytes, the crate's
/// `ED25519_SIGNATURE_LEN`), or why it failed.  Loading fails exactly where
/// `ed25519_pkcs8_public_key` is `None`.  A signature verifies, with
/// Ed25519, under the key pair's raw public key.
#[verifier::external_body]
pub fn ed25519_sign_pkcs8(der: &[u8], msg: &[u8]) -> (r: Result<Vec<u8>, SignFailure>)
    ensures
        r matches Err(SignFailure::KeyRejected(_)) <==> ed25519_pkcs8_public_key(der@) is None,
        r matches Err(SignFailure::Signing(e)) ==> e@ == "Unspecified"@,
        ed25519_pkcs8_public_key(der@) is Some ==> (r is Ok <==> ed25519_signature(der@, msg@) is Some),
        r matches Ok(s) ==> s@ == ed25519_signature(der@, msg@).unwrap() && s@.len() == 64,
        r matches Ok(s) ==> signature_verifies(
            KeyAlgorithm::Ed25519,
            ed25519_pkcs8_public_key(der@).unwrap(),
            msg@,
            s@,
        ),
{
    let key_pair = Ed25519KeyPair::from_pkcs8(der).map_err(|e| SignFailure::KeyRejected(e.to_string()))?;
    match key_pair.try_sign(msg) {
        Ok(signature) => Ok(signature.as_ref().to_vec()),
        Err(e) => Err(SignFailure::Signing(e.to_string())),
    }
}

/// The RSA key sizes that can be generated.
#[derive(Debug, Clone, Copy)]
pub enum RsaKeySize {
    Rsa2048,
    Rsa3072,
    Rsa4096,
    Rsa8192,
}

/// The length in bytes of the modulus of a key of the size (`KeySize::len`).
pub open spec fn rsa_key_size_bytes(size: RsaKeySize) -> nat {
    match size {
        RsaKeySize::Rsa2048 => 256,
        RsaKeySize::Rsa3072 => 384,
        RsaKeySize::Rsa4096 => 512,
        RsaKeySize::Rsa8192 => 1024,
    }
}

/// The number of bits of a key of the size (`KeySize::Rsa2048` is a
/// 2048-bit key, and so on).
pub open spec fn rsa_key_size_bits(size: RsaKeySize) -> nat {
    match size {
        RsaKeySize::Rsa2048 => 2048,
        RsaKeySize::Rsa3072 => 3072,
        RsaKeySize::Rsa4096 => 4096,
        RsaKeySize::Rsa8192 => 8192,
    }
}

/// The RSA signature encodings: the padding and the digest.
#[derive(Debug, Clone, Copy)]
pub enum RsaEncoding {
    PssSha256,
    PssSha384,
    PssSha512,
    Pkcs1Sha256,
    Pkcs1Sha384,
    Pkcs1Sha512,
}

/// The algorithm that verifies the RSA signatures made with the encoding:
/// the same padding and digest, for keys of 2048 to 8192 bits.
pub open spec fn rsa_encoding_algorithm(encoding: RsaEncoding) -> KeyAlgorithm {
    match encoding {
        RsaEncoding::PssSha256 => KeyAlgorithm::RsaPssSha256,
        RsaEncoding::PssSha384 => KeyAlgorithm::RsaPssSha384,
        RsaEncoding::PssSha512 => KeyAlgorithm::RsaPssSha512,
        RsaEncoding::Pkcs1Sha256 => KeyAlgorithm::RsaPkcs1Sha256,
        RsaEncoding::Pkcs1Sha384 => KeyAlgorithm::RsaPkcs1Sha384,
        RsaEncoding::Pkcs1Sha512 => KeyAlgorithm::RsaPkcs1Sha512,
    }
}

/// Whether the encoding uses PKCS#1 v1.5 padding, which draws on no
/// randomness.
pub open spec fn is_pkcs1_encoding(encoding: RsaEncoding) -> bool {
    encoding is Pkcs1Sha256 || encoding is Pkcs1Sha384 || encoding is Pkcs1Sha512
}

/// The public key, as a DER X.509 SubjectPublicKeyInfo
/// (`public_key().as_der()`), of the PKCS#8 document that
/// `RsaKeyPair::from_pkcs8` accepts, or `None` where a step fails.
pub uninterp spec fn rsa_pkcs8_public_key(der: Seq<u8>) -> Option<Seq<u8>>;

/// The modulus length in bytes (`public_modulus_len`) of the PKCS#8
/// document that `RsaKeyPair::from_pkcs8` accepts, or `None` where it
/// rejects it.
pub uninterp spec fn rsa_pkcs8_modulus_len(der: Seq<u8>) -> Option<nat>;

/// The number of bits of the public modulus (`public_key().modulus()`,
/// big-endian without leading zeros) of the PKCS#8 document that
/// `RsaKeyPair::from_pkcs8` accepts, or `None` where it rejects it.
pub uninterp spec fn rsa_pkcs8_modulus_bits(der: Seq<u8>) -> Option<nat>;

/// The signature that `RsaKeyPair::sign` gives, with a PKCS#1 v1.5
/// encoding, for the message with the key of the PKCS#8 document (the
/// padding is deterministic and the random source is not used), or `None`
/// where it reports an error.
pub uninterp spec fn rsa_pkcs1_signature(encoding: RsaEncoding, der: Seq<u8>, msg: Seq<u8>) -> Option<Seq<u8>>;

/// `RsaKeyPair::generate` of the size, then `as_der`: a fresh random key as
/// a PKCS#8 v1 document, or why it failed.  The key rests on chance; what is
/// said of it is what a key of the size is: `from_pkcs8` loads it (it is
/// within 2048 to 8192 bits), its modulus has the size's number of bits
/// and bytes, and its public key can be encoded.
#[verifier::external_body]
pub fn rsa_generate_pkcs8(size: RsaKeySize) -> (r: Result<Vec<u8>, GenerateFailure>)
    ensures
        r matches Err(GenerateFailure::Generation(e)) ==> e@ == "Unspecified"@,
        r matches Err(GenerateFailure::Encoding(e)) ==> e@ == "Unspecified"@,
        r matches Ok(d) ==> rsa_pkcs8_public_key(d@) is Some && rsa_pkcs8_modulus_len(d@) == Some(
            rsa_key_size_bytes(size),
        ) && rsa_pkcs8_modulus_bits(d@) == Some(rsa_key_size_bits(size)),
{
    let key_size = match size {
        RsaKeySize::Rsa2048 => KeySize::Rsa2048,
        RsaKeySize::Rsa3072 => KeySize::Rsa3072,
        RsaKeySize::Rsa4096 => KeySize::Rsa4096,
        RsaKeySize::Rsa8192 => KeySize::Rsa8192,
    };
    let key_pair = RsaKeyPair::generate(key_size).map_err(|e| GenerateFailure::Generation(e.to_string()))?;
    match key_pair.as_der() {
        Ok(der) => Ok(der.as_ref().to_vec()),
        Err(e) => Err(GenerateFailure::Encoding(e.to_string())),
    }
}

/// `RsaKeyPair::from_pkcs8`, then `public_key().as_der()`: the DER
/// SubjectPublicKeyInfo of the document's public key (named by
/// `rsa_pkcs8_public_key`), or the error's text.  aws-lc writes it as an
/// X.509 SubjectPublicKeyInfo of rsaEncryption.  Where it succeeds the
/// document loaded, so its modulus length is named too.
#[verifier::external_body]
pub fn rsa_public_key_from_pkcs8(der: &[u8]) -> (r: Result<Vec<u8>, String>)
    ensures
        r is Ok <==> rsa_pkcs8_public_key(der@) is Some,
        r matches Ok(p) ==> p@ == rsa_pkcs8_public_key(der@).unwrap(),
        r matches Ok(p) ==> is_rsa_spki(p@),
        r is Ok ==> rsa_pkcs8_modulus_len(der@) is Some,
{
    let key_pair = RsaKeyPair::from_pkcs8(der).map_err(|e| e.to_string())?;
    match key_pair.public_key().as_der() {
        Ok(spki) => Ok(spki.as_ref().to_vec()),
        Err(e) => Err(e.to_string()),
    }
}

/// `RsaKeyPair::from_pkcs8`, then `sign` of the message with the encoding
/// into a buffer of the modulus length: the signature, or why it failed.
/// Loading fails exactly where `rsa_pkcs8_modulus_len` is `None` (it also
/// rejects keys outside 2048 to 8192 bits).  A signature has the modulus
/// length and verifies, with the encoding's padding and digest, under the
/// key pair's public key.  A PKCS#1 v1.5 signature is named by
/// `rsa_pkcs1_signature`; a PSS signature rests on chance (its salt), so
/// its bytes are left free.
#[verifier::external_body]
pub fn rsa_sign_pkcs8(encoding: RsaEncoding, der: &[u8], msg: &[u8]) -> (r: Result<Vec<u8>, SignFailure>)
    ensures
        r matches Err(SignFailure::KeyRejected(_)) <==> rsa_pkcs8_modulus_len(der@) is None,
        r matches Err(SignFailure::Signing(e)) ==> e@ == "Unspecified"@,
        r matches Ok(s) ==> rsa_pkcs8_modulus_len(der@) == Some(s@.len()),
        r matches Ok(s) ==> (rsa_pkcs8_public_key(der@) is Some ==> signature_verifies(
            rsa_encoding_algorithm(encoding),
            rsa_pkcs8_public_key(der@).unwrap(),
            msg@,
            s@,
        )),
        is_pkcs1_encoding(encoding) && rsa_pkcs8_modulus_len(der@) is Some ==> (r is Ok
            <==> rsa_pkcs1_signature(encoding, der@, msg@) is Some),
        r matches Ok(s) ==> (is_pkcs1_encoding(encoding) ==> s@ == rsa_pkcs1_signature(
            encoding,
            der@,
            msg@,
        ).unwrap()),
{
    let padding: &'static dyn aws_lc_rs::signature::RsaEncoding = match encoding {
        RsaEncoding::PssSha256 => &RSA_PSS_SHA256,
        RsaEncoding::PssSha384 => &RSA_PSS_SHA384,
        RsaEncoding::PssSha512 => &RSA_PSS_SHA512,
        RsaEncoding::Pkcs1Sha256 => &RSA_PKCS1_SHA256,
        RsaEncoding::Pkcs1Sha384 => &RSA_PKCS1_SHA384,
        RsaEncoding::Pkcs1Sha512 => &RSA_PKCS1_SHA512,
    };
    let key_pair = RsaKeyPair::from_pkcs8(der).map_err(|e| SignFailure::KeyRejected(e.to_string()))?;
    let mut signature = vec![0u8; key_pair.public_modulus_len()];
    key_pair.sign(padding, &SystemRandom::new(), msg, &mut signature).map_err(|e| SignFailure::Signing(e.to_string()))?;
    Ok(signature)
}

} // verus!
