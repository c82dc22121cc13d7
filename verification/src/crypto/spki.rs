//! Public key and private key info structures (X.509 SubjectPublicKeyInfo,
//! PKCS#8 PrivateKeyInfo) as plain values, with their DER encoding and
//! decoding done by `x509-cert` and `pkcs8`, and the OIDs of `const-oid`.

use vstd::prelude::*;
use vstd::slice::slice_to_vec;
use x509_cert::der::{asn1::BitString, Any, Decode, Encode, Tag, Tagged};

use crate::crypto::primitives::{signature_verifies, EcdsaCurveId};
use crate::crypto::KeyAlgorithm;

verus! {

/// The parameters of an algorithm identifier: an ASN.1 value, as its tag
/// octet and its value bytes.
#[derive(Debug, Clone)]
pub struct AlgorithmParameters {
    pub tag: u8,
    pub value: Vec<u8>,
}

/// An algorithm identifier: the algorithm's OID, as the value bytes of its
/// DER encoding, and its optional parameters.
#[derive(Debug, Clone)]
pub struct AlgorithmIdentifier {
    pub oid: Vec<u8>,
    pub parameters: Option<AlgorithmParameters>,
}

/// An X.509 SubjectPublicKeyInfo: the key's algorithm and the key itself,
/// a bit string given by its unused-bit count and its bytes.
#[derive(Debug, Clone)]
pub struct SubjectPublicKeyInfo {
    pub algorithm: AlgorithmIdentifier,
    pub unused_bits: u8,
    pub subject_public_key: Vec<u8>,
}

/// The parts of a PKCS#8 PrivateKeyInfo that key handling reads: the
/// algorithm and, in a version 2 document, the public key.
#[derive(Debug, Clone)]
pub struct PrivateKeyInfo {
    pub algorithm: AlgorithmIdentifier,
    pub public_key: Option<Vec<u8>>,
}

/// The mathematical value of an algorithm identifier.
pub struct AlgorithmIdentifierView {
    pub oid: Seq<u8>,
    pub parameters: Option<(u8, Seq<u8>)>,
}

/// The mathematical value of a SubjectPublicKeyInfo.
pub struct SpkiView {
    pub algorithm: AlgorithmIdentifierView,
    pub unused_bits: u8,
    pub key: Seq<u8>,
}

/// The mathematical value of a PrivateKeyInfo.
pub struct PrivateKeyInfoView {
    pub algorithm: AlgorithmIdentifierView,
    pub public_key: Option<Seq<u8>>,
}

impl View for AlgorithmIdentifier {
    type V = AlgorithmIdentifierView;

    open spec fn view(&self) -> AlgorithmIdentifierView {
        AlgorithmIdentifierView {
            oid: self.oid@,
            parameters: match self.parameters {
                Some(p) => Some((p.tag, p.value@)),
                None => None,
            },
        }
    }
}

impl View for SubjectPublicKeyInfo {
    type V = SpkiView;

    open spec fn view(&self) -> SpkiView {
        SpkiView {
            algorithm: self.algorithm@,
            unused_bits: self.unused_bits,
            key: self.subject_public_key@,
        }
    }
}

impl View for PrivateKeyInfo {
    type V = PrivateKeyInfoView;

    open spec fn view(&self) -> PrivateKeyInfoView {
        PrivateKeyInfoView {
            algorithm: self.algorithm@,
            public_key: match self.public_key {
                Some(k) => Some(k@),
                None => None,
            },
        }
    }
}

/// The OID 1.2.840.10045.2.1 (id-ecPublicKey), as DER value bytes.
pub open spec fn ec_public_key_oid() -> Seq<u8> {
    seq![0x2au8, 0x86u8, 0x48u8, 0xceu8, 0x3du8, 0x02u8, 0x01u8]
}

/// The OID 1.2.840.113549.1.1.1 (rsaEncryption), as DER value bytes.
pub open spec fn rsa_encryption_oid() -> Seq<u8> {
    seq![0x2au8, 0x86u8, 0x48u8, 0x86u8, 0xf7u8, 0x0du8, 0x01u8, 0x01u8, 0x01u8]
}

/// The OID 1.3.101.112 (id-Ed25519), as DER value bytes.
pub open spec fn ed25519_oid() -> Seq<u8> {
    seq![0x2bu8, 0x65u8, 0x70u8]
}

/// The algorithm identifier of Ed25519 keys: the OID 1.3.101.112 with no
/// parameters (RFC 8410).
pub open spec fn ed25519_algorithm_id() -> AlgorithmIdentifierView {
    AlgorithmIdentifierView { oid: ed25519_oid(), parameters: None }
}

/// The OID 1.2.840.10045.3.1.7 (secp256r1, the NIST P-256 curve), as DER
/// value bytes.
pub open spec fn secp256r1_oid() -> Seq<u8> {
    seq![0x2au8, 0x86u8, 0x48u8, 0xceu8, 0x3du8, 0x03u8, 0x01u8, 0x07u8]
}

/// The OID 1.3.132.0.34 (secp384r1, the NIST P-384 curve), as DER value
/// bytes.
pub open spec fn secp384r1_oid() -> Seq<u8> {
    seq![0x2bu8, 0x81u8, 0x04u8, 0x00u8, 0x22u8]
}

/// The curve that the parameters of an EC algorithm identifier name: an
/// OBJECT IDENTIFIER (tag 6) naming P-256 or P-384; `None` for any other
/// parameters.
pub open spec fn ec_named_curve(parameters: Option<(u8, Seq<u8>)>) -> Option<EcdsaCurveId> {
    match parameters {
        Some((tag, value)) => if tag == 6 && value == secp256r1_oid() {
            Some(EcdsaCurveId::P256)
        } else if tag == 6 && value == secp384r1_oid() {
            Some(EcdsaCurveId::P384)
        } else {
            None
        },
        None => None,
    }
}

/// Whether DER bytes are a SubjectPublicKeyInfo of an EC key
/// (id-ecPublicKey) on the named curve.
pub open spec fn is_ec_spki(der: Seq<u8>, curve: EcdsaCurveId) -> bool {
    &&& spki_parsed(der) is Some
    &&& spki_parsed(der).unwrap().algorithm.oid == ec_public_key_oid()
    &&& ec_named_curve(spki_parsed(der).unwrap().algorithm.parameters) == Some(curve)
}

/// Whether DER bytes are a SubjectPublicKeyInfo of an RSA key
/// (rsaEncryption).
pub open spec fn is_rsa_spki(der: Seq<u8>) -> bool {
    &&& spki_parsed(der) is Some
    &&& spki_parsed(der).unwrap().algorithm.oid == rsa_encryption_oid()
}

/// What `SubjectPublicKeyInfoOwned::from_der` gives for the bytes, or
/// `None` where it reports an error.
pub uninterp spec fn spki_parsed(der: Seq<u8>) -> Option<SpkiView>;

/// What `to_der` gives for the SubjectPublicKeyInfo built from these parts,
/// or `None` where building or encoding reports an error.
pub uninterp spec fn spki_der_encoding(spki: SpkiView) -> Option<Seq<u8>>;

/// What `pkcs8::PrivateKeyInfo::from_der` gives for the bytes, or `None`
/// where it reports an error.
pub uninterp spec fn private_key_info_parsed(der: Seq<u8>) -> Option<PrivateKeyInfoView>;

/// The dotted-decimal text (the `Display` of `ObjectIdentifier`) of the OID
/// with these value bytes, or `None` where `ObjectIdentifier::from_bytes`
/// rejects them.
pub uninterp spec fn oid_dotted(oid: Seq<u8>) -> Option<Seq<char>>;

/// `const_oid::db::rfc5912::ID_EC_PUBLIC_KEY.as_bytes()`: the value bytes of
/// the OID 1.2.840.10045.2.1.
#[verifier::external_body]
pub fn id_ec_public_key() -> (r: Vec<u8>)
    ensures
        r@ == ec_public_key_oid(),
{
    const_oid::db::rfc5912::ID_EC_PUBLIC_KEY.as_bytes().to_vec()
}

/// `const_oid::db::rfc5912::RSA_ENCRYPTION.as_bytes()`: the value bytes of
/// the OID 1.2.840.113549.1.1.1.
#[verifier::external_body]
pub fn rsa_encryption() -> (r: Vec<u8>)
    ensures
        r@ == rsa_encryption_oid(),
{
    const_oid::db::rfc5912::RSA_ENCRYPTION.as_bytes().to_vec()
}

/// `const_oid::db::rfc5912::SECP_256_R_1.as_bytes()`: the value bytes of
/// the OID 1.2.840.10045.3.1.7.
#[verifier::external_body]
pub fn secp256r1() -> (r: Vec<u8>)
    ensures
        r@ == secp256r1_oid(),
{
    const_oid::db::rfc5912::SECP_256_R_1.as_bytes().to_vec()
}

/// `const_oid::db::rfc5912::SECP_384_R_1.as_bytes()`: the value bytes of
/// the OID 1.3.132.0.34.
#[verifier::external_body]
pub fn secp384r1() -> (r: Vec<u8>)
    ensures
        r@ == secp384r1_oid(),
{
    const_oid::db::rfc5912::SECP_384_R_1.as_bytes().to_vec()
}

/// `ObjectIdentifier::from_bytes` followed by `to_string`: the dotted text
/// of the OID, named by `oid_dotted`.
#[verifier::external_body]
pub fn oid_to_string(oid: &[u8]) -> (r: Option<String>)
    ensures
        r is Some <==> oid_dotted(oid@) is Some,
        r matches Some(s) ==> s@ == oid_dotted(oid@).unwrap(),
{
    match const_oid::ObjectIdentifier::from_bytes(oid) {
        Ok(o) => Some(o.to_string()),
        Err(_) => None,
    }
}

/// `x509_cert::spki::SubjectPublicKeyInfoOwned::from_der`: the parsed
/// structure as plain values, or the decoder's error text; named by
/// `spki_parsed`.
#[verifier::external_body]
pub fn parse_spki_der(der: &[u8]) -> (r: Result<SubjectPublicKeyInfo, String>)
    ensures
        r is Ok <==> spki_parsed(der@) is Some,
        r matches Ok(s) ==> s@ == spki_parsed(der@).unwrap(),
{
    let spki = x509_cert::spki::SubjectPublicKeyInfoOwned::from_der(der).map_err(|e| e.to_string())?;
    let parameters = match &spki.algorithm.parameters {
        Some(p) => Some(AlgorithmParameters { tag: p.tag().octet(), value: p.value().to_vec() }),
        None => None,
    };
    let algorithm = AlgorithmIdentifier { oid: spki.algorithm.oid.as_bytes().to_vec(), parameters };
    let bits = &spki.subject_public_key;
    Ok(SubjectPublicKeyInfo { algorithm, unused_bits: bits.unused_bits(), subject_public_key: bits.raw_bytes().to_vec() })
}

/// `to_der` of the `x509_cert::spki::SubjectPublicKeyInfoOwned` built from
/// these parts (`ObjectIdentifier::from_bytes`, `Any::new`,
/// `BitString::new`): its DER encoding, or the first error's text; named by
/// `spki_der_encoding`.  The DER it writes is a SubjectPublicKeyInfo that
/// `from_der` reads back.  The encoding of an Ed25519 info (id-Ed25519, no
/// parameters, a whole-byte 32-byte key) is the RFC 8410 form that
/// aws-lc-rs reads back (`parse_ed25519_public_key`, which takes a 32-byte
/// raw key or such an SPKI) as the same raw key, so it verifies exactly the
/// signatures that the raw key verifies.
#[verifier::external_body]
pub fn encode_spki_der(spki: &SubjectPublicKeyInfo) -> (r: Result<Vec<u8>, String>)
    ensures
        r is Ok <==> spki_der_encoding(spki@) is Some,
        r matches Ok(v) ==> v@ == spki_der_encoding(spki@).unwrap(),
        r matches Ok(v) ==> spki_parsed(v@) is Some,
        r matches Ok(v) ==> (spki@.algorithm == ed25519_algorithm_id() && spki@.unused_bits == 0
            && spki@.key.len() == 32 ==> forall|m: Seq<u8>, s: Seq<u8>|
            #[trigger] signature_verifies(KeyAlgorithm::Ed25519, v@, m, s) == signature_verifies(
                KeyAlgorithm::Ed25519,
                spki@.key,
                m,
                s,
            )),
{
    let oid = const_oid::ObjectIdentifier::from_bytes(&spki.algorithm.oid).map_err(|e| e.to_string())?;
    let parameters = match &spki.algorithm.parameters {
        Some(p) => Some(Any::new(Tag::try_from(p.tag).map_err(|e| e.to_string())?, p.value.clone()).map_err(|e| e.to_string())?),
        None => None,
    };
    let subject_public_key = BitString::new(spki.unused_bits, spki.subject_public_key.clone()).map_err(|e| e.to_string())?;
    let algorithm = x509_cert::spki::AlgorithmIdentifierOwned { oid, parameters };
    x509_cert::spki::SubjectPublicKeyInfoOwned { algorithm, subject_public_key }.to_der().map_err(|e| e.to_string())
}

/// `pkcs8::PrivateKeyInfo::from_der`: the algorithm and optional public key
/// as plain values, or the decoder's error text; named by
/// `private_key_info_parsed`.
#[verifier::external_body]
pub fn parse_private_key_info(der: &[u8]) -> (r: Result<PrivateKeyInfo, String>)
    ensures
        r is Ok <==> private_key_info_parsed(der@) is Some,
        r matches Ok(i) ==> i@ == private_key_info_parsed(der@).unwrap(),
{
    let info = pkcs8::PrivateKeyInfo::from_der(der).map_err(|e| e.to_string())?;
    let parameters = match info.algorithm.parameters {
        Some(p) => Some(AlgorithmParameters { tag: p.tag().octet(), value: p.value().to_vec() }),
        None => None,
    };
    let algorithm = AlgorithmIdentifier { oid: info.algorithm.oid.as_bytes().to_vec(), parameters };
    Ok(PrivateKeyInfo { algorithm, public_key: info.public_key.map(|k| k.to_vec()) })
}

impl AlgorithmIdentifier {
    /// A copy of the identifier.
    pub fn clone_identifier(&self) -> (r: Self)
        ensures
            r@ == self@,
    {
        AlgorithmIdentifier {
            oid: slice_to_vec(self.oid.as_slice()),
            parameters: match &self.parameters {
                Some(p) => Some(AlgorithmParameters { tag: p.tag, value: slice_to_vec(p.value.as_slice()) }),
                None => None,
            },
        }
    }
}

/// The curve that the parameters of an EC algorithm identifier name, if
/// it is P-256 or P-384.
pub fn named_curve(algorithm: &AlgorithmIdentifier) -> (r: Option<EcdsaCurveId>)
    ensures
        r == ec_named_curve(algorithm@.parameters),
{
    match &algorithm.parameters {
        Some(p) => {
            if p.tag == 6 {
                let p256 = secp256r1();
                let p384 = secp384r1();
                if bytes_equal(p.value.as_slice(), p256.as_slice()) {
                    Some(EcdsaCurveId::P256)
                } else if bytes_equal(p.value.as_slice(), p384.as_slice()) {
                    Some(EcdsaCurveId::P384)
                } else {
                    None
                }
            } else {
                None
            }
        },
        None => None,
    }
}

/// Whether two byte strings are equal.
pub fn bytes_equal(a: &[u8], b: &[u8]) -> (r: bool)
    ensures
        r == (a@ == b@),
{
    if a.len() != b.len() {
        return false;
    }
    let mut i: usize = 0;
    while i < a.len()
        invariant
            i <= a.len() == b.len(),
            a@.subrange(0, i as int) == b@.subrange(0, i as int),
        decreases a.len() - i,
    {
        if a[i] != b[i] {
            assert(a@[i as int] != b@[i as int]);
            return false;
        }
        assert(a@.subrange(0, i + 1) == a@.subrange(0, i as int).push(a@[i as int]));
        assert(b@.subrange(0, i + 1) == b@.subrange(0, i as int).push(b@[i as int]));
        i = i + 1;
    }
    assert(a@ == a@.subrange(0, a@.len() as int));
    assert(b@ == b@.subrange(0, b@.len() as int));
    true
}

} // verus!
