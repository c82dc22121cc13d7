//! # ECDSA Keys using aws-lc-rs
//!
//! ECDSA key pair generation, import and export, and signing, with
//! aws-lc-rs doing the cryptography.
//!
//! Supported curves:
//! * P-256 (secp256r1)
//! * P-384 (secp384r1)

use std::marker::PhantomData;
use vstd::prelude::*;
use vstd::slice::slice_to_vec;
use vstd::utf8::encode_utf8;

use crate::crypto::pem_codec::{pem_encode, pem_encoding, pem_parsed, plain_pem_tag};
use crate::crypto::primitives::{
    ecdsa_algorithm, ecdsa_generate_pkcs8, ecdsa_pkcs8_public_key, ecdsa_public_key_from_pkcs8,
    ecdsa_sign_pkcs8, signature_verifies, EcdsaCurveId, SignFailure,
};
use crate::crypto::secret::{SecretBytes, SecretString};
use crate::crypto::spki::is_ec_spki;
use crate::crypto::signing_key::{
    has_prefix, prefixed, private_key_pem_contents, private_pem_contents, private_pem_error, KeyPair,
    SigStoreSigner, Signer, PRIVATE_KEY_PEM_LABEL, PUBLIC_KEY_PEM_LABEL,
};
use crate::crypto::verification_key::CosignVerificationKey;
use crate::crypto::{scheme_algorithm, KeyAlgorithm, SigningScheme};
use crate::errors::{Result, SigstoreError};

verus! {

/// The name of a curve.
pub open spec fn curve_name_of(curve: EcdsaCurveId) -> Seq<char> {
    match curve {
        EcdsaCurveId::P256 => "P-256"@,
        EcdsaCurveId::P384 => "P-384"@,
    }
}

/// Marker trait for ECDSA curves
pub trait EcdsaCurve {
    /// The curve.
    spec fn spec_curve() -> EcdsaCurveId;

    /// Returns the curve, which selects the signing algorithm (ASN.1
    /// signatures, SHA-256 for P-256 and SHA-384 for P-384).
    fn curve() -> (c: EcdsaCurveId)
        ensures
            c == Self::spec_curve(),
    ;

    /// Returns the curve name
    fn curve_name() -> (name: &'static str)
        ensures
            name@ == curve_name_of(Self::spec_curve()),
    ;
}

/// Marker type for P-256 curve
#[derive(Debug, Clone, Copy)]
pub struct P256;

impl EcdsaCurve for P256 {
    open spec fn spec_curve() -> EcdsaCurveId {
        EcdsaCurveId::P256
    }

    fn curve() -> (c: EcdsaCurveId) {
        EcdsaCurveId::P256
    }

    fn curve_name() -> (name: &'static str) {
        "P-256"
    }
}

/// Marker type for P-384 curve
#[derive(Debug, Clone, Copy)]
pub struct P384;

impl EcdsaCurve for P384 {
    open spec fn spec_curve() -> EcdsaCurveId {
        EcdsaCurveId::P384
    }

    fn curve() -> (c: EcdsaCurveId) {
        EcdsaCurveId::P384
    }

    fn curve_name() -> (name: &'static str) {
        "P-384"
    }
}

/// What signing a message with an ECDSA key pair on the curve (with this
/// public key) gives: an ASN.1 DER signature (a SEQUENCE, first octet
/// `0x30`) that verifies under the public key with the curve's algorithm,
/// or the failure that aws-lc-rs's signing itself reports (`Unspecified`).
pub open spec fn ecdsa_sign_outcome(
    curve: EcdsaCurveId,
    public: Seq<u8>,
    msg: Seq<u8>,
    r: Result<Vec<u8>>,
) -> bool {
    match r {
        Ok(sig) => signature_verifies(ecdsa_algorithm(curve), public, msg, sig@) && sig@.len() > 0
            && sig@[0] == 0x30u8,
        Err(e) => e matches SigstoreError::PKCS8Error(m) && m@ == "Signing failed: "@
            + "Unspecified"@,
    }
}

/// An ECDSA signer answers every message, of any length, with a signature
/// that verifies under its public key, unless aws-lc-rs's signing itself
/// fails; its only error is that failure.
pub proof fn law_ecdsa_signing(curve: EcdsaCurveId, public: Seq<u8>, msg: Seq<u8>, r: Result<Vec<u8>>)
    requires
        ecdsa_sign_outcome(curve, public, msg, r),
    ensures
        r matches Ok(sig) ==> signature_verifies(ecdsa_algorithm(curve), public, msg, sig@),
        r is Err ==> (r matches Err(SigstoreError::PKCS8Error(m)) && m@ == "Signing failed: "@
            + "Unspecified"@),
{
}

/// The key that PKCS#8 DER bytes import as on the curve: the bytes and
/// their public key, or `None` where aws-lc-rs rejects them.
pub open spec fn ecdsa_der_import(curve: EcdsaCurveId, der: Seq<u8>) -> Option<(Seq<u8>, Seq<u8>)> {
    match ecdsa_pkcs8_public_key(curve, der) {
        Some(public) => Some((der, public)),
        None => None,
    }
}

/// The key that PEM text imports as on the curve.
pub open spec fn ecdsa_pem_import(curve: EcdsaCurveId, pem: Seq<u8>) -> Option<(Seq<u8>, Seq<u8>)> {
    match private_pem_contents(pem, false) {
        Some(der) => ecdsa_der_import(curve, der),
        None => None,
    }
}

/// Generic ECDSA key pair using aws-lc-rs: a PKCS#8 private key and its
/// public key, a DER SubjectPublicKeyInfo.
#[derive(Debug)]
pub struct EcdsaKeys<C: EcdsaCurve> {
    // Store the key in PKCS#8 DER format for serialization
    pkcs8_der: SecretBytes,
    // Store the public key separately
    public_key_der: Vec<u8>,
    _marker: PhantomData<C>,
}

impl<C: EcdsaCurve> View for EcdsaKeys<C> {
    /// A key pair is its PKCS#8 bytes and its public key bytes.
    type V = (Seq<u8>, Seq<u8>);

    closed spec fn view(&self) -> (Seq<u8>, Seq<u8>) {
        (self.pkcs8_der@, self.public_key_der@)
    }
}

impl<C: EcdsaCurve> EcdsaKeys<C> {
    /// The public key is the one of the private key.
    #[verifier::type_invariant]
    spec fn well_formed(self) -> bool {
        &&& ecdsa_pkcs8_public_key(C::spec_curve(), self.pkcs8_der@) == Some(self.public_key_der@)
        &&& is_ec_spki(self.public_key_der@, C::spec_curve())
    }
}

impl<C: EcdsaCurve> Clone for EcdsaKeys<C> {
    fn clone(&self) -> (r: Self)
        ensures
            r@ == self@,
    {
        proof {
            use_type_invariant(self);
        }
        Self {
            pkcs8_der: self.pkcs8_der.clone(),
            public_key_der: slice_to_vec(self.public_key_der.as_slice()),
            _marker: PhantomData,
        }
    }
}

impl<C: EcdsaCurve> EcdsaKeys<C> {
    /// Create a new `EcdsaKeys` Object with a randomly generated key pair:
    /// the generated document, imported as `from_der` does.  It fails only
    /// where aws-lc-rs fails to generate a key.
    pub fn new() -> (r: Result<Self>)
        ensures
            r matches Ok(k) ==> ecdsa_der_import(C::spec_curve(), k@.0) == Some(k@),
            r is Err ==> (r matches Err(SigstoreError::PKCS8Error(m)) && has_prefix(
                m@,
                "ECDSA key generation failed: "@,
            )),
            r is Err ==> (r matches Err(SigstoreError::PKCS8Error(m)) && m@
                == "ECDSA key generation failed: "@ + "Unspecified"@),
    {
        let pkcs8_der = match ecdsa_generate_pkcs8(C::curve()) {
            Ok(der) => der,
            Err(e) => {
                return Err(
                    SigstoreError::PKCS8Error(
                        prefixed("ECDSA key generation failed: ", e.as_str()),
                    ),
                )
            },
        };
        Self::from_der(pkcs8_der.as_slice())
    }

    /// Builds an `EcdsaKeys` from a pkcs8 PEM-encoded private key: the text
    /// must be UTF-8 and PEM labelled `PRIVATE KEY`.
    pub fn from_pem(pem_data: &[u8]) -> (r: Result<Self>)
        ensures
            r is Ok <==> ecdsa_pem_import(C::spec_curve(), pem_data@) is Some,
            r matches Ok(k) ==> k@ == ecdsa_pem_import(C::spec_curve(), pem_data@).unwrap(),
            private_pem_contents(pem_data@, false) is None ==> (r matches Err(e)
                && private_pem_error(pem_data@, false, e)),
            private_pem_contents(pem_data@, false) is Some && r is Err ==> r matches Err(
                SigstoreError::PKCS8Error(_),
            ),
    {
        match private_key_pem_contents(pem_data, false) {
            Ok(der) => Self::from_der(der.as_slice()),
            Err(e) => Err(e),
        }
    }

    /// Builds an `EcdsaKeys` from a pkcs8 DER-encoded private key.
    pub fn from_der(private_key: &[u8]) -> (r: Result<Self>)
        ensures
            r is Ok <==> ecdsa_der_import(C::spec_curve(), private_key@) is Some,
            r matches Ok(k) ==> k@ == ecdsa_der_import(C::spec_curve(), private_key@).unwrap(),
            r is Err ==> r matches Err(SigstoreError::PKCS8Error(_)),
    {
        let public_key_der = match ecdsa_public_key_from_pkcs8(C::curve(), private_key) {
            Ok(public) => public,
            Err(e) => {
                return Err(
                    SigstoreError::PKCS8Error(
                        prefixed(
                            "Convert from pkcs8 der to ecdsa private key failed: ",
                            e.as_str(),
                        ),
                    ),
                )
            },
        };
        Ok(
            Self {
                pkcs8_der: SecretBytes::new(slice_to_vec(private_key)),
                public_key_der,
                _marker: PhantomData,
            },
        )
    }

    /// Get a reference to the PKCS#8 DER-encoded private key
    pub(crate) fn pkcs8_der(&self) -> (r: &[u8])
        ensures
            r@ == self@.0,
    {
        self.pkcs8_der.as_slice()
    }
}

impl EcdsaKeys<P256> {
    /// Create a [`SigStoreSigner`] from this P256 key
    pub fn to_sigstore_signer(&self) -> (r: Result<SigStoreSigner>)
        ensures
            r matches Ok(SigStoreSigner::ECDSA_P256_SHA256_ASN1(s)) && s@ == self@,
    {
        match EcdsaSigner::<P256>::from_ecdsa_keys(self) {
            Ok(signer) => Ok(SigStoreSigner::ECDSA_P256_SHA256_ASN1(signer)),
            Err(e) => Err(e),
        }
    }
}

impl EcdsaKeys<P384> {
    /// Create a [`SigStoreSigner`] from this P384 key
    pub fn to_sigstore_signer(&self) -> (r: Result<SigStoreSigner>)
        ensures
            r matches Ok(SigStoreSigner::ECDSA_P384_SHA384_ASN1(s)) && s@ == self@,
    {
        match EcdsaSigner::<P384>::from_ecdsa_keys(self) {
            Ok(signer) => Ok(SigStoreSigner::ECDSA_P384_SHA384_ASN1(signer)),
            Err(e) => Err(e),
        }
    }
}

impl<C: EcdsaCurve> KeyPair for EcdsaKeys<C> {
    open spec fn public_key_bytes(&self) -> Seq<u8> {
        self@.1
    }

    open spec fn private_key_bytes(&self) -> Seq<u8> {
        self@.0
    }

    /// The verification key of the scheme's algorithm with the public key.
    open spec fn verification_key_for(&self, scheme: SigningScheme) -> (KeyAlgorithm, Seq<u8>) {
        (scheme_algorithm(scheme), self@.1)
    }

    /// Return the public key in PEM-encoded SPKI format; `pem::parse` reads
    /// the public key back from it.
    fn public_key_to_pem(&self) -> (r: Result<String>)
        ensures
            r matches Ok(p) && p@ == pem_encoding("PUBLIC KEY"@, self@.1) && pem_parsed(
                encode_utf8(p@),
            ) == Some(("PUBLIC KEY"@, self@.1)),
    {
        proof {
            reveal_strlit("PUBLIC KEY");
        }
        assert(plain_pem_tag("PUBLIC KEY"@));
        Ok(pem_encode(PUBLIC_KEY_PEM_LABEL, self.public_key_der.as_slice()))
    }

    /// Return the private key in pkcs8 PEM-encoded format; read back with
    /// `from_pem` it gives this same key pair.
    fn private_key_to_pem(&self) -> (r: Result<SecretString>)
        ensures
            r matches Ok(p) && p@ == pem_encoding("PRIVATE KEY"@, self@.0) && ecdsa_pem_import(
                C::spec_curve(),
                encode_utf8(p@),
            ) == Some(self@),
    {
        proof {
            use_type_invariant(self);
            reveal_strlit("PRIVATE KEY");
            vstd::utf8::encode_utf8_valid_utf8(pem_encoding("PRIVATE KEY"@, self@.0));
        }
        let pem = pem_encode(PRIVATE_KEY_PEM_LABEL, self.pkcs8_der.as_slice());
        assert(plain_pem_tag("PRIVATE KEY"@));
        Ok(SecretString::new(pem))
    }

    /// Return the public key in DER SPKI format: a SubjectPublicKeyInfo of
    /// id-ecPublicKey on the key pair's curve.
    fn public_key_to_der(&self) -> (r: Result<Vec<u8>>)
        ensures
            r matches Ok(d) && d@ == self@.1 && is_ec_spki(d@, C::spec_curve()),
    {
        proof {
            use_type_invariant(self);
        }
        Ok(slice_to_vec(self.public_key_der.as_slice()))
    }

    /// Return the private key in pkcs8 DER format; read back with
    /// `from_der` it gives this same key pair.
    fn private_key_to_der(&self) -> (r: Result<SecretBytes>)
        ensures
            r matches Ok(d) && d@ == self@.0 && ecdsa_der_import(C::spec_curve(), d@) == Some(self@),
    {
        proof {
            use_type_invariant(self);
        }
        Ok(self.pkcs8_der.clone())
    }

    /// Derive the relative [`CosignVerificationKey`]: the public key, put
    /// in PEM form and read back, with the scheme's algorithm.
    fn to_verification_key(&self, signing_scheme: &SigningScheme) -> (r: Result<
        CosignVerificationKey,
    >)
        ensures
            r matches Ok(k) && k@ == (scheme_algorithm(*signing_scheme), self@.1),
    {
        proof {
            use_type_invariant(self);
        }
        let pem = match self.public_key_to_pem() {
            Ok(p) => p,
            Err(e) => return Err(e),
        };
        CosignVerificationKey::from_pem(pem.as_str().as_bytes(), signing_scheme)
    }
}

/// `EcdsaSigner` is used to generate ECDSA signatures using aws-lc-rs; the
/// curve selects the digest (SHA-256 for P-256, SHA-384 for P-384).
#[derive(Clone, Debug)]
pub struct EcdsaSigner<C: EcdsaCurve> {
    ecdsa_keys: EcdsaKeys<C>,
}

impl<C: EcdsaCurve> View for EcdsaSigner<C> {
    /// A signer is the key pair it signs with.
    type V = (Seq<u8>, Seq<u8>);

    closed spec fn view(&self) -> (Seq<u8>, Seq<u8>) {
        self.ecdsa_keys@
    }
}

impl<C: EcdsaCurve> EcdsaSigner<C> {
    /// Create a new `EcdsaSigner` from the given `EcdsaKeys`
    pub fn from_ecdsa_keys(ecdsa_keys: &EcdsaKeys<C>) -> (r: Result<Self>)
        ensures
            r matches Ok(s) && s@ == ecdsa_keys@,
    {
        Ok(Self { ecdsa_keys: ecdsa_keys.clone() })
    }

    /// Return the ref to the keypair inside the signer
    pub fn ecdsa_keys(&self) -> (r: &EcdsaKeys<C>)
        ensures
            r@ == self@,
    {
        &self.ecdsa_keys
    }

    /// Return the ref to the keypair inside the signer, as a [`KeyPair`].
    pub fn key_pair(&self) -> (r: &dyn KeyPair)
        ensures
            r.public_key_bytes() == self@.1,
            r.private_key_bytes() == self@.0,
            forall|scheme: SigningScheme| #[trigger] r.verification_key_for(scheme)
                == (scheme_algorithm(scheme), self@.1),
    {
        return &self.ecdsa_keys;
    }
}

impl<C: EcdsaCurve> Signer for EcdsaSigner<C> {
    /// Sign the given message and return an ASN.1 DER-encoded signature.
    /// The key always loads, as it was checked when it was made; the
    /// signature itself rests on chance.
    fn sign(&self, msg: &[u8]) -> (r: Result<Vec<u8>>)
        ensures
            r is Err ==> (r matches Err(SigstoreError::PKCS8Error(m)) && has_prefix(
                m@,
                "Signing failed: "@,
            )),
            r matches Ok(s) ==> signature_verifies(ecdsa_algorithm(C::spec_curve()), self@.1, msg@, s@),
            r matches Ok(s) ==> s@.len() > 0 && s@[0] == 0x30u8,
            ecdsa_sign_outcome(C::spec_curve(), self@.1, msg@, r),
    {
        proof {
            use_type_invariant(&self.ecdsa_keys);
        }
        match ecdsa_sign_pkcs8(C::curve(), self.ecdsa_keys.pkcs8_der(), msg) {
            Ok(signature) => Ok(signature),
            Err(SignFailure::KeyRejected(e)) => Err(
                SigstoreError::PKCS8Error(prefixed("Failed to load key: ", e.as_str())),
            ),
            Err(SignFailure::Signing(e)) => Err(
                SigstoreError::PKCS8Error(prefixed("Signing failed: ", e.as_str())),
            ),
        }
    }
}

} // verus!
