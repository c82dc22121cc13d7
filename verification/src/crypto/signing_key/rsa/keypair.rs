//! # RSA Key Pair using aws-lc-rs
//!
//! RSA key pair generation, import and export, with aws-lc-rs doing the
//! cryptography.

use vstd::prelude::*;
use vstd::slice::slice_to_vec;
use vstd::utf8::encode_utf8;

use super::{DigestAlgorithm, PaddingScheme, RSASigner, rsa_algorithm, sigstore_rsa_signer};
use crate::crypto::encoding::{decimal, decimal_string};
use crate::crypto::pem_codec::{pem_encode, pem_encoding, pem_parsed, plain_pem_tag};
use crate::crypto::primitives::{
    rsa_generate_pkcs8, rsa_pkcs8_modulus_bits, rsa_pkcs8_modulus_len, rsa_pkcs8_public_key, rsa_public_key_from_pkcs8,
    GenerateFailure, RsaKeySize,
};
use crate::crypto::secret::{SecretBytes, SecretString};
use crate::crypto::spki::is_rsa_spki;
use crate::crypto::signing_key::{
    has_prefix, prefixed, private_key_pem_contents, private_pem_contents, private_pem_error, KeyPair,
    SigStoreSigner, PRIVATE_KEY_PEM_LABEL, PUBLIC_KEY_PEM_LABEL,
};
use crate::crypto::verification_key::CosignVerificationKey;
use crate::crypto::{scheme_algorithm, KeyAlgorithm, SigningScheme};
use crate::errors::{Result, SigstoreError};

verus! {

/// The key sizes, in bits, that can be generated.
pub open spec fn supported_rsa_bits(bit_size: usize) -> bool {
    bit_size == 2048 || bit_size == 3072 || bit_size == 4096 || bit_size == 8192
}

/// The error text of a failed generation of a key of a supported size:
/// aws-lc-rs failed to generate the key, or to encode it as PKCS#8 (it
/// reports both as `Unspecified`).
pub open spec fn rsa_generation_failure(m: Seq<char>) -> bool {
    ||| m == "RSA key generation failed: "@ + "Unspecified"@
    ||| m == "Failed to serialize RSA key: "@ + "Unspecified"@
}

/// What generating a key pair of the size gives: for an unsupported size
/// the size error; for a supported one a key pair whose public key is that
/// of its private key and whose modulus has the size's bits and bytes, or
/// the generator's failure.
pub open spec fn rsa_new_outcome(bit_size: usize, r: Result<RSAKeys>) -> bool {
    &&& !supported_rsa_bits(bit_size) ==> (r matches Err(SigstoreError::PKCS8Error(m)) && m@
        == "Unsupported RSA key size: "@ + decimal(bit_size as nat))
    &&& supported_rsa_bits(bit_size) && r is Err ==> (r matches Err(SigstoreError::PKCS8Error(m))
        && rsa_generation_failure(m@))
    &&& r matches Ok(k) ==> rsa_der_import(k@.0) == Some(k@) && rsa_pkcs8_modulus_len(k@.0) == Some(
        (bit_size / 8) as nat,
    ) && rsa_pkcs8_modulus_bits(k@.0) == Some(bit_size as nat)
}

/// Generating an RSA key pair succeeds only for 2048, 3072, 4096 or 8192
/// bits; a generated key pair has a modulus of exactly the requested number
/// of bits and carries the public key of its own private key; and for a
/// supported size the only failure is the generator's own.
pub proof fn law_rsa_generation(bit_size: usize, r: Result<RSAKeys>)
    requires
        rsa_new_outcome(bit_size, r),
    ensures
        r is Ok ==> bit_size == 2048 || bit_size == 3072 || bit_size == 4096 || bit_size == 8192,
        r matches Ok(k) ==> rsa_pkcs8_modulus_bits(k@.0) == Some(bit_size as nat)
            && rsa_pkcs8_public_key(k@.0) == Some(k@.1),
        (bit_size == 2048 || bit_size == 3072 || bit_size == 4096 || bit_size == 8192) ==> (r is Ok
            || (r matches Err(SigstoreError::PKCS8Error(m)) && rsa_generation_failure(m@))),
{
}

/// The key that PKCS#8 DER bytes import as: the bytes and their public
/// key, or `None` where aws-lc-rs rejects them.
pub open spec fn rsa_der_import(der: Seq<u8>) -> Option<(Seq<u8>, Seq<u8>)> {
    match rsa_pkcs8_public_key(der) {
        Some(public) => Some((der, public)),
        None => None,
    }
}

/// The key that PEM text labelled `PRIVATE KEY` or `RSA PRIVATE KEY`
/// imports as.
pub open spec fn rsa_pem_import(pem: Seq<u8>) -> Option<(Seq<u8>, Seq<u8>)> {
    match private_pem_contents(pem, true) {
        Some(der) => rsa_der_import(der),
        None => None,
    }
}

/// An RSA key pair: a PKCS#8 private key and its public key, a DER
/// SubjectPublicKeyInfo.
#[derive(Debug)]
pub struct RSAKeys {
    // Store the key in PKCS#8 DER format
    pkcs8_der: SecretBytes,
    // Store the public key separately
    public_key_der: Vec<u8>,
}

impl View for RSAKeys {
    /// A key pair is its PKCS#8 bytes and its public key bytes.
    type V = (Seq<u8>, Seq<u8>);

    closed spec fn view(&self) -> (Seq<u8>, Seq<u8>) {
        (self.pkcs8_der@, self.public_key_der@)
    }
}

impl RSAKeys {
    /// The public key is the one of the private key, which loads.
    #[verifier::type_invariant]
    spec fn well_formed(self) -> bool {
        &&& rsa_pkcs8_public_key(self.pkcs8_der@) == Some(self.public_key_der@)
        &&& rsa_pkcs8_modulus_len(self.pkcs8_der@) is Some
        &&& is_rsa_spki(self.public_key_der@)
    }

    /// The public key of a key pair is that of its private key, which
    /// loads.
    pub(crate) fn reveal_well_formed(&self)
        ensures
            rsa_der_import(self@.0) == Some(self@),
            rsa_pkcs8_modulus_len(self@.0) is Some,
    {
        proof {
            use_type_invariant(self);
        }
    }
}

impl Clone for RSAKeys {
    fn clone(&self) -> (r: Self)
        ensures
            r@ == self@,
    {
        proof {
            use_type_invariant(self);
        }
        RSAKeys {
            pkcs8_der: self.pkcs8_der.clone(),
            public_key_der: slice_to_vec(self.public_key_der.as_slice()),
        }
    }
}

impl RSAKeys {
    /// Create a new `RSAKeys` Object with a randomly generated key pair of
    /// 2048, 3072, 4096 or 8192 bits: the generated document, imported as
    /// `from_der` does.  Its modulus has the requested number of bits; it
    /// fails only for another size, or where aws-lc-rs fails to generate or
    /// encode a key.
    pub fn new(bit_size: usize) -> (r: Result<Self>)
        ensures
            rsa_new_outcome(bit_size, r),
    {
        let key_size = match bit_size {
            2048 => RsaKeySize::Rsa2048,
            3072 => RsaKeySize::Rsa3072,
            4096 => RsaKeySize::Rsa4096,
            8192 => RsaKeySize::Rsa8192,
            _ => {
                let size = decimal_string(bit_size);
                return Err(
                    SigstoreError::PKCS8Error(
                        prefixed("Unsupported RSA key size: ", size.as_str()),
                    ),
                );
            },
        };
        let pkcs8_der = match rsa_generate_pkcs8(key_size) {
            Ok(der) => der,
            Err(GenerateFailure::Generation(e)) => {
                return Err(
                    SigstoreError::PKCS8Error(prefixed("RSA key generation failed: ", e.as_str())),
                )
            },
            Err(GenerateFailure::Encoding(e)) => {
                return Err(
                    SigstoreError::PKCS8Error(
                        prefixed("Failed to serialize RSA key: ", e.as_str()),
                    ),
                )
            },
        };
        Self::from_der(pkcs8_der.as_slice())
    }

    /// Create a new `RSAKeys` Object from given `RSAKeys` Object: the key
    /// pair its private key imports as, which is the same key pair.
    pub fn from_rsa_privatekey_key(key: &RSAKeys) -> (r: Result<Self>)
        ensures
            r matches Ok(k) && k@ == key@,
    {
        key.reveal_well_formed();
        Self::from_der(key.pkcs8_der.as_slice())
    }

    /// Builds an `RSAKeys` from a pkcs8 PEM-encoded private key: the text
    /// must be UTF-8 and PEM labelled `PRIVATE KEY` or `RSA PRIVATE KEY`.
    pub fn from_pem(pem: &[u8]) -> (r: Result<Self>)
        ensures
            r is Ok <==> rsa_pem_import(pem@) is Some,
            r matches Ok(k) ==> k@ == rsa_pem_import(pem@).unwrap(),
            private_pem_contents(pem@, true) is None ==> (r matches Err(e) && private_pem_error(
                pem@,
                true,
                e,
            )),
            private_pem_contents(pem@, true) is Some && r is Err ==> r matches Err(
                SigstoreError::PKCS8Error(_),
            ),
    {
        match private_key_pem_contents(pem, true) {
            Ok(der) => Self::from_der(der.as_slice()),
            Err(e) => Err(e),
        }
    }

    /// Builds an `RSAKeys` from a pkcs8 DER-encoded private key.
    pub fn from_der(der_bytes: &[u8]) -> (r: Result<Self>)
        ensures
            r is Ok <==> rsa_der_import(der_bytes@) is Some,
            r matches Ok(k) ==> k@ == rsa_der_import(der_bytes@).unwrap(),
            r is Err ==> r matches Err(SigstoreError::PKCS8Error(_)),
    {
        let public_key_der = match rsa_public_key_from_pkcs8(der_bytes) {
            Ok(public) => public,
            Err(e) => {
                return Err(
                    SigstoreError::PKCS8Error(
                        prefixed("Convert from pkcs8 der to rsa private key failed: ", e.as_str()),
                    ),
                )
            },
        };
        Ok(Self { pkcs8_der: SecretBytes::new(slice_to_vec(der_bytes)), public_key_der })
    }

    /// `to_sigstore_signer` will create the [`SigStoreSigner`] using
    /// this rsa key pair.
    pub fn to_sigstore_signer(
        &self,
        digest_algorithm: DigestAlgorithm,
        padding_scheme: PaddingScheme,
    ) -> (r: Result<SigStoreSigner>)
        ensures
            r matches Ok(s) && sigstore_rsa_signer(
                s,
                rsa_algorithm(digest_algorithm, padding_scheme),
                self@,
            ),
            r matches Ok(s) && s.variant_algorithm() == rsa_algorithm(digest_algorithm, padding_scheme)
                && s.verification_key() == (
                rsa_algorithm(digest_algorithm, padding_scheme),
                self@.1,
            ),
    {
        RSASigner::from_rsa_keys_enum(self, digest_algorithm, padding_scheme)
    }

    /// Get a reference to the PKCS#8 DER-encoded private key
    pub(crate) fn pkcs8_der(&self) -> (r: &[u8])
        ensures
            r@ == self@.0,
    {
        self.pkcs8_der.as_slice()
    }
}

impl KeyPair for RSAKeys {
    open spec fn public_key_bytes(&self) -> Seq<u8> {
        self@.1
    }

    open spec fn private_key_bytes(&self) -> Seq<u8> {
        self@.0
    }

    /// The verification key of the scheme's algorithm with the public key.
    open spec fn verification_key_for(&self, scheme: SigningScheme) -> (KeyAlgorithm, Seq<u8>) {
        (scheme_algorithm(scheme), self@.1)
    }

    /// Return the public key in PEM-encoded SPKI format; `pem::parse` reads
    /// the public key back from it.
    fn public_key_to_pem(&self) -> (r: Result<String>)
        ensures
            r matches Ok(p) && p@ == pem_encoding("PUBLIC KEY"@, self@.1) && pem_parsed(
                encode_utf8(p@),
            ) == Some(("PUBLIC KEY"@, self@.1)),
    {
        proof {
            reveal_strlit("PUBLIC KEY");
        }
        assert(plain_pem_tag("PUBLIC KEY"@));
        Ok(pem_encode(PUBLIC_KEY_PEM_LABEL, self.public_key_der.as_slice()))
    }

    /// Return the public key in DER SPKI format: a SubjectPublicKeyInfo of
    /// rsaEncryption.
    fn public_key_to_der(&self) -> (r: Result<Vec<u8>>)
        ensures
            r matches Ok(d) && d@ == self@.1 && is_rsa_spki(d@),
    {
        proof {
            use_type_invariant(self);
        }
        Ok(slice_to_vec(self.public_key_der.as_slice()))
    }

    /// Return the private key in pkcs8 PEM-encoded format; read back with
    /// `from_pem` it gives this same key pair.
    fn private_key_to_pem(&self) -> (r: Result<SecretString>)
        ensures
            r matches Ok(p) && p@ == pem_encoding("PRIVATE KEY"@, self@.0) && rsa_pem_import(
                encode_utf8(p@),
            ) == Some(self@),
    {
        proof {
            use_type_invariant(self);
            reveal_strlit("PRIVATE KEY");
            vstd::utf8::encode_utf8_valid_utf8(pem_encoding("PRIVATE KEY"@, self@.0));
        }
        let pem = pem_encode(PRIVATE_KEY_PEM_LABEL, self.pkcs8_der.as_slice());
        assert(plain_pem_tag("PRIVATE KEY"@));
        Ok(SecretString::new(pem))
    }

    /// Return the private key in pkcs8 DER format; read back with
    /// `from_der` it gives this same key pair.
    fn private_key_to_der(&self) -> (r: Result<SecretBytes>)
        ensures
            r matches Ok(d) && d@ == self@.0 && rsa_der_import(d@) == Some(self@),
    {
        proof {
            use_type_invariant(self);
        }
        Ok(self.pkcs8_der.clone())
    }

    /// Derive the relative [`CosignVerificationKey`]: the public key with
    /// the scheme's algorithm.
    fn to_verification_key(&self, signing_scheme: &SigningScheme) -> (r: Result<
        CosignVerificationKey,
    >)
        ensures
            r matches Ok(k) && k@ == (scheme_algorithm(*signing_scheme), self@.1),
    {
        let der = match self.public_key_to_der() {
            Ok(d) => d,
            Err(e) => return Err(e),
        };
        CosignVerificationKey::from_der(der.as_slice(), signing_scheme)
    }
}

} // verus!
