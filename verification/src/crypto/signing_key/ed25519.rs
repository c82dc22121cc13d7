//! # Ed25519 Keys using aws-lc-rs
//!
//! Ed25519 key pair generation, import and export, and signing, with
//! aws-lc-rs doing the cryptography.  The public key is kept as a DER
//! SubjectPublicKeyInfo built from the PKCS#8 document's algorithm.

use vstd::prelude::*;
use vstd::slice::slice_to_vec;
use vstd::utf8::encode_utf8;

use crate::crypto::pem_codec::{pem_encode, pem_encoding, pem_parsed, plain_pem_tag};
use crate::crypto::primitives::{
    ed25519_generate_pkcs8, ed25519_pkcs8_public_key, ed25519_public_key_from_pkcs8,
    ed25519_sign_pkcs8, ed25519_signature, signature_verifies, SignFailure,
};
use crate::crypto::secret::{SecretBytes, SecretString};
use crate::crypto::signing_key::{
    has_prefix, prefixed, private_key_pem_contents, private_pem_contents, private_pem_error, KeyPair,
    SigStoreSigner, Signer, PRIVATE_KEY_PEM_LABEL, PUBLIC_KEY_PEM_LABEL,
};
use crate::crypto::spki::{
    encode_spki_der, parse_private_key_info, private_key_info_parsed, spki_der_encoding, spki_parsed,
    ed25519_algorithm_id, AlgorithmIdentifierView, SpkiView, SubjectPublicKeyInfo,
};
use crate::crypto::verification_key::CosignVerificationKey;
use crate::crypto::{KeyAlgorithm, SigningScheme};
use crate::errors::{Result, SigstoreError};

verus! {

/// The DER SubjectPublicKeyInfo of a raw public key under an algorithm
/// identifier (a bit string with no unused bits).
pub open spec fn ed25519_spki(algorithm: AlgorithmIdentifierView, raw: Seq<u8>) -> Option<Seq<u8>> {
    spki_der_encoding(SpkiView { algorithm, unused_bits: 0, key: raw })
}

/// The key that PKCS#8 DER bytes import as: the bytes and the
/// SubjectPublicKeyInfo of the public key that aws-lc-rs reads from them,
/// under the document's algorithm; `None` where a step fails.
pub open spec fn ed25519_der_import(der: Seq<u8>) -> Option<(Seq<u8>, Seq<u8>)> {
    match ed25519_pkcs8_public_key(der) {
        None => None,
        Some(raw) => match private_key_info_parsed(der) {
            None => None,
            Some(info) => match ed25519_spki(info.algorithm, raw) {
                None => None,
                Some(spki) => Some((der, spki)),
            },
        },
    }
}

/// The key that a freshly generated PKCS#8 v2 document gives: the bytes and
/// the SubjectPublicKeyInfo of the public key written in the document.
pub open spec fn ed25519_generated_import(der: Seq<u8>) -> Option<(Seq<u8>, Seq<u8>)> {
    match private_key_info_parsed(der) {
        None => None,
        Some(info) => match info.public_key {
            None => None,
            Some(raw) => match ed25519_spki(info.algorithm, raw) {
                None => None,
                Some(spki) => Some((der, spki)),
            },
        },
    }
}

/// The key that PEM text imports as.
pub open spec fn ed25519_pem_import(pem: Seq<u8>) -> Option<(Seq<u8>, Seq<u8>)> {
    match private_pem_contents(pem, false) {
        Some(der) => ed25519_der_import(der),
        None => None,
    }
}

/// An Ed25519 key pair: a PKCS#8 private key and the DER
/// SubjectPublicKeyInfo of its public key.
#[derive(Debug)]
pub struct Ed25519Keys {
    // Store the key in PKCS#8 DER format for serialization
    pkcs8_der: SecretBytes,
    // Store the public key separately
    public_key: Vec<u8>,
}

impl View for Ed25519Keys {
    /// A key pair is its PKCS#8 bytes and its public key bytes.
    type V = (Seq<u8>, Seq<u8>);

    closed spec fn view(&self) -> (Seq<u8>, Seq<u8>) {
        (self.pkcs8_der@, self.public_key@)
    }
}

impl Ed25519Keys {
    /// The public key is the SubjectPublicKeyInfo of the one aws-lc-rs
    /// derives from the private key.
    #[verifier::type_invariant]
    spec fn well_formed(self) -> bool {
        &&& ed25519_der_import(self.pkcs8_der@) == Some((self.pkcs8_der@, self.public_key@))
        &&& private_key_info_parsed(self.pkcs8_der@).unwrap().algorithm == ed25519_algorithm_id()
        &&& spki_parsed(self.public_key@) is Some
        &&& forall|m: Seq<u8>, s: Seq<u8>|
            #[trigger] signature_verifies(KeyAlgorithm::Ed25519, self.public_key@, m, s)
                == signature_verifies(
                KeyAlgorithm::Ed25519,
                ed25519_pkcs8_public_key(self.pkcs8_der@).unwrap(),
                m,
                s,
            )
    }
}

impl Clone for Ed25519Keys {
    fn clone(&self) -> (r: Self)
        ensures
            r@ == self@,
    {
        proof {
            use_type_invariant(self);
        }
        Ed25519Keys {
            pkcs8_der: self.pkcs8_der.clone(),
            public_key: slice_to_vec(self.public_key.as_slice()),
        }
    }
}

/// Builds the DER SubjectPublicKeyInfo of a raw public key under an
/// algorithm identifier.
fn encode_public_key(algorithm: &crate::crypto::spki::AlgorithmIdentifier, raw: &[u8]) -> (r:
    Result<Vec<u8>>)
    ensures
        r matches Ok(v) ==> spki_parsed(v@) is Some,
        r matches Ok(v) ==> (algorithm@ == ed25519_algorithm_id() && raw@.len() == 32 ==> forall|
            m: Seq<u8>,
            s: Seq<u8>,
        |
            #[trigger] signature_verifies(KeyAlgorithm::Ed25519, v@, m, s) == signature_verifies(
                KeyAlgorithm::Ed25519,
                raw@,
                m,
                s,
            )),
        match ed25519_spki(algorithm@, raw@) {
            Some(spki) => r matches Ok(v) && v@ == spki,
            None => r matches Err(SigstoreError::PKCS8Error(m)) && has_prefix(
                m@,
                "Failed to encode SPKI: "@,
            ),
        },
{
    let spki = SubjectPublicKeyInfo {
        algorithm: algorithm.clone_identifier(),
        unused_bits: 0,
        subject_public_key: slice_to_vec(raw),
    };
    match encode_spki_der(&spki) {
        Ok(der) => Ok(der),
        Err(e) => Err(SigstoreError::PKCS8Error(prefixed("Failed to encode SPKI: ", e.as_str()))),
    }
}

impl Ed25519Keys {
    /// Create a new `Ed25519Keys` Object with a randomly generated key pair:
    /// the generated document with the public key written in it, which is
    /// the one aws-lc-rs derives, so the key pair is what `from_der` gives
    /// for its private key.  It fails only where aws-lc-rs fails to
    /// generate a key, or the public key cannot be encoded.
    pub fn new() -> (r: Result<Self>)
        ensures
            r matches Ok(k) ==> ed25519_der_import(k@.0) == Some(k@) && ed25519_generated_import(
                k@.0,
            ) == Some(k@),
            r is Err ==> (r matches Err(SigstoreError::Ed25519PKCS8Error(m)) && m@
                == "Ed25519 key generation failed: "@ + "Unspecified"@) || (r matches Err(SigstoreError::PKCS8Error(m)) && has_prefix(
                m@,
                "Failed to encode SPKI: "@,
            )),
    {
        let pkcs8_der = match ed25519_generate_pkcs8() {
            Ok(der) => der,
            Err(e) => {
                return Err(
                    SigstoreError::Ed25519PKCS8Error(
                        prefixed("Ed25519 key generation failed: ", e.as_str()),
                    ),
                )
            },
        };
        Self::from_generated_pkcs8(pkcs8_der.as_slice())
    }

    /// The key pair of a freshly generated PKCS#8 v2 document: the document
    /// and the SubjectPublicKeyInfo of the public key written in it, under
    /// the document's algorithm.  The document loads and its written public
    /// key is the derived one.
    fn from_generated_pkcs8(der: &[u8]) -> (r: Result<Self>)
        requires
            ed25519_pkcs8_public_key(der@) is Some,
            private_key_info_parsed(der@) is Some,
            private_key_info_parsed(der@).unwrap().public_key == ed25519_pkcs8_public_key(der@),
            private_key_info_parsed(der@).unwrap().algorithm == ed25519_algorithm_id(),
            ed25519_pkcs8_public_key(der@).unwrap().len() == 32,
        ensures
            r is Ok <==> ed25519_generated_import(der@) is Some,
            r matches Ok(k) ==> k@ == ed25519_generated_import(der@).unwrap() && ed25519_der_import(
                der@,
            ) == Some(k@),
            r is Err ==> (r matches Err(SigstoreError::PKCS8Error(m)) && has_prefix(
                m@,
                "Failed to encode SPKI: "@,
            )),
    {
        let pkcs8_info = match parse_private_key_info(der) {
            Ok(info) => info,
            Err(e) => {
                return Err(
                    SigstoreError::PKCS8Error(prefixed("Failed to parse PKCS#8: ", e.as_str())),
                )
            },
        };
        let public_key_bytes = match &pkcs8_info.public_key {
            Some(k) => k,
            None => {
                return Err(SigstoreError::PKCS8Error(String::from_str("No public key in PKCS#8")))
            },
        };
        let public_key = match encode_public_key(&pkcs8_info.algorithm, public_key_bytes.as_slice()) {
            Ok(spki) => spki,
            Err(e) => return Err(e),
        };
        Ok(Ed25519Keys { pkcs8_der: SecretBytes::new(slice_to_vec(der)), public_key })
    }

    /// Create a new `Ed25519Keys` Object from given `Ed25519Keys` Object:
    /// the key pair that its private key imports as, which is the same key
    /// pair.
    pub fn from_ed25519key(key: &Ed25519Keys) -> (r: Result<Self>)
        ensures
            r matches Ok(k) && k@ == key@,
    {
        proof {
            use_type_invariant(key);
        }
        Self::from_der(key.pkcs8_der.as_slice())
    }

    /// Builds an `Ed25519Keys` from a pkcs8 PEM-encoded private key: the
    /// text must be UTF-8 and PEM labelled `PRIVATE KEY`.
    pub fn from_pem(pem: &[u8]) -> (r: Result<Self>)
        ensures
            r is Ok <==> ed25519_pem_import(pem@) is Some,
            r matches Ok(k) ==> k@ == ed25519_pem_import(pem@).unwrap(),
            private_pem_contents(pem@, false) is None ==> (r matches Err(e) && private_pem_error(
                pem@,
                false,
                e,
            )),
            private_pem_contents(pem@, false) is Some && r is Err ==> r matches Err(
                SigstoreError::PKCS8Error(_),
            ),
    {
        match private_key_pem_contents(pem, false) {
            Ok(der) => Self::from_der(der.as_slice()),
            Err(e) => Err(e),
        }
    }

    /// Builds an `Ed25519Keys` from a pkcs8 DER-encoded private key: the
    /// public key that aws-lc-rs reads from it, as a SubjectPublicKeyInfo
    /// under the document's algorithm.
    pub fn from_der(der_bytes: &[u8]) -> (r: Result<Self>)
        ensures
            r is Ok <==> ed25519_der_import(der_bytes@) is Some,
            r matches Ok(k) ==> k@ == ed25519_der_import(der_bytes@).unwrap(),
            r is Err ==> r matches Err(SigstoreError::PKCS8Error(_)),
    {
        let public_key_bytes = match ed25519_public_key_from_pkcs8(der_bytes) {
            Ok(raw) => raw,
            Err(e) => {
                return Err(
                    SigstoreError::PKCS8Error(
                        prefixed(
                            "Convert from pkcs8 der to ed25519 private key failed: ",
                            e.as_str(),
                        ),
                    ),
                )
            },
        };
        let pkcs8_info = match parse_private_key_info(der_bytes) {
            Ok(info) => info,
            Err(e) => {
                return Err(
                    SigstoreError::PKCS8Error(prefixed("Failed to parse PKCS#8: ", e.as_str())),
                )
            },
        };
        let public_key = match encode_public_key(&pkcs8_info.algorithm, public_key_bytes.as_slice()) {
            Ok(der) => der,
            Err(e) => return Err(e),
        };
        Ok(Self { pkcs8_der: SecretBytes::new(slice_to_vec(der_bytes)), public_key })
    }

    /// `to_sigstore_signer` will create the [`SigStoreSigner`] using
    /// this ed25519 private key.
    pub fn to_sigstore_signer(&self) -> (r: Result<SigStoreSigner>)
        ensures
            r matches Ok(SigStoreSigner::ED25519(s)) && s@ == self@,
    {
        match Ed25519Signer::from_ed25519_keys(self) {
            Ok(signer) => Ok(SigStoreSigner::ED25519(signer)),
            Err(e) => Err(e),
        }
    }

    /// Get a reference to the PKCS#8 DER-encoded private key
    pub(crate) fn pkcs8_der(&self) -> (r: &[u8])
        ensures
            r@ == self@.0,
    {
        self.pkcs8_der.as_slice()
    }
}

impl KeyPair for Ed25519Keys {
    open spec fn public_key_bytes(&self) -> Seq<u8> {
        self@.1
    }

    open spec fn private_key_bytes(&self) -> Seq<u8> {
        self@.0
    }

    /// An Ed25519 key verifies with Ed25519, whatever the scheme.
    open spec fn verification_key_for(&self, scheme: SigningScheme) -> (KeyAlgorithm, Seq<u8>) {
        (KeyAlgorithm::Ed25519, self@.1)
    }

    /// Return the public key in PEM-encoded SPKI format; `pem::parse` reads
    /// the public key back from it.
    fn public_key_to_pem(&self) -> (r: Result<String>)
        ensures
            r matches Ok(p) && p@ == pem_encoding("PUBLIC KEY"@, self@.1) && pem_parsed(
                encode_utf8(p@),
            ) == Some(("PUBLIC KEY"@, self@.1)),
    {
        proof {
            reveal_strlit("PUBLIC KEY");
        }
        assert(plain_pem_tag("PUBLIC KEY"@));
        Ok(pem_encode(PUBLIC_KEY_PEM_LABEL, self.public_key.as_slice()))
    }

    /// Return the public key in DER SPKI format: the SubjectPublicKeyInfo of
    /// id-Ed25519 (no parameters) with the raw public key that aws-lc-rs
    /// derives from the private key.
    fn public_key_to_der(&self) -> (r: Result<Vec<u8>>)
        ensures
            r matches Ok(d) && d@ == self@.1 && Some(d@) == ed25519_spki(
                ed25519_algorithm_id(),
                ed25519_pkcs8_public_key(self@.0).unwrap(),
            ) && spki_parsed(d@) is Some,
    {
        proof {
            use_type_invariant(self);
        }
        Ok(slice_to_vec(self.public_key.as_slice()))
    }

    /// Return the private key in pkcs8 PEM-encoded format; read back with
    /// `from_pem` it gives this same key pair.
    fn private_key_to_pem(&self) -> (r: Result<SecretString>)
        ensures
            r matches Ok(p) && p@ == pem_encoding("PRIVATE KEY"@, self@.0) && ed25519_pem_import(
                encode_utf8(p@),
            ) == Some(self@),
    {
        proof {
            use_type_invariant(self);
            reveal_strlit("PRIVATE KEY");
            vstd::utf8::encode_utf8_valid_utf8(pem_encoding("PRIVATE KEY"@, self@.0));
        }
        let pem = pem_encode(PRIVATE_KEY_PEM_LABEL, self.pkcs8_der.as_slice());
        assert(plain_pem_tag("PRIVATE KEY"@));
        Ok(SecretString::new(pem))
    }

    /// Return the private key in pkcs8 DER format; read back with
    /// `from_der` it gives this same key pair.
    fn private_key_to_der(&self) -> (r: Result<SecretBytes>)
        ensures
            r matches Ok(d) && d@ == self@.0 && ed25519_der_import(d@) == Some(self@),
    {
        proof {
            use_type_invariant(self);
        }
        Ok(self.pkcs8_der.clone())
    }

    /// Derive the relative [`CosignVerificationKey`]: the public key with
    /// Ed25519, whatever the scheme asked for.
    fn to_verification_key(&self, _signature_digest_algorithm: &SigningScheme) -> (r: Result<
        CosignVerificationKey,
    >)
        ensures
            r matches Ok(k) && k@ == (KeyAlgorithm::Ed25519, self@.1),
    {
        proof {
            use_type_invariant(self);
        }
        let der = match self.public_key_to_der() {
            Ok(d) => d,
            Err(e) => return Err(e),
        };
        CosignVerificationKey::from_der(der.as_slice(), &SigningScheme::ED25519)
    }
}

/// A signer with an Ed25519 key pair.
#[derive(Debug)]
pub struct Ed25519Signer {
    key_pair: Ed25519Keys,
}

impl View for Ed25519Signer {
    /// A signer is the key pair it signs with.
    type V = (Seq<u8>, Seq<u8>);

    closed spec fn view(&self) -> (Seq<u8>, Seq<u8>) {
        self.key_pair@
    }
}

impl Ed25519Signer {
    /// Create a new `Ed25519Signer` from the given `Ed25519Keys`.
    pub fn from_ed25519_keys(ed25519_keys: &Ed25519Keys) -> (r: Result<Self>)
        ensures
            r matches Ok(s) && s@ == ed25519_keys@,
    {
        Ok(Self { key_pair: ed25519_keys.clone() })
    }

    /// Return the ref to the keypair inside the signer
    pub fn ed25519_keys(&self) -> (r: &Ed25519Keys)
        ensures
            r@ == self@,
    {
        &self.key_pair
    }

    /// Return the ref to the keypair inside the signer, as a [`KeyPair`].
    pub fn key_pair(&self) -> (r: &dyn KeyPair)
        ensures
            r.public_key_bytes() == self@.1,
            r.private_key_bytes() == self@.0,
            forall|scheme: SigningScheme| #[trigger] r.verification_key_for(scheme)
                == (KeyAlgorithm::Ed25519, self@.1),
    {
        return &self.key_pair;
    }
}

impl Signer for Ed25519Signer {
    /// Sign the given message using Ed25519: the deterministic signature of
    /// the private key, or an error where the key does not load or signing
    /// fails.
    fn sign(&self, msg: &[u8]) -> (r: Result<Vec<u8>>)
        ensures
            r matches Ok(s) ==> signature_verifies(KeyAlgorithm::Ed25519, self@.1, msg@, s@),
            r matches Err(e) ==> (e matches SigstoreError::Ed25519PKCS8Error(m) && m@
                == "Signing failed: "@ + "Unspecified"@),
            ed25519_pkcs8_public_key(self@.0) is Some,
            match ed25519_pkcs8_public_key(self@.0) {
                None => r matches Err(SigstoreError::Ed25519PKCS8Error(_)),
                Some(_) => match ed25519_signature(self@.0, msg@) {
                    Some(s) => r matches Ok(v) && v@ == s && s.len() == 64,
                    None => r matches Err(SigstoreError::Ed25519PKCS8Error(_)),
                },
            },
    {
        proof {
            use_type_invariant(&self.key_pair);
        }
        match ed25519_sign_pkcs8(self.key_pair.pkcs8_der(), msg) {
            Ok(signature) => Ok(signature),
            Err(SignFailure::KeyRejected(e)) => Err(
                SigstoreError::Ed25519PKCS8Error(prefixed("Failed to load key: ", e.as_str())),
            ),
            Err(SignFailure::Signing(e)) => Err(
                SigstoreError::Ed25519PKCS8Error(prefixed("Signing failed: ", e.as_str())),
            ),
        }
    }
}

} // verus!
