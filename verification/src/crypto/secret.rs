//! Secret key material, held in `zeroize::Zeroizing` buffers that are wiped
//! when dropped.  Each buffer sits in an opaque struct of its own, whose
//! contents are named and read through `as_slice`, `as_str` or `deref`.

use std::ops::Deref;
use vstd::prelude::*;
use zeroize::Zeroizing;

verus! {

/// Secret bytes (such as a PKCS#8 private key), wiped when dropped.
#[derive(Debug)]
#[verifier::external_body]
pub struct SecretBytes {
    bytes: Zeroizing<Vec<u8>>,
}

/// Secret text (such as a PEM-encoded private key), wiped when dropped.
#[derive(Debug)]
#[verifier::external_body]
pub struct SecretString {
    text: Zeroizing<String>,
}

/// The bytes held in a `SecretBytes`.
pub uninterp spec fn secret_bytes_contents(s: SecretBytes) -> Seq<u8>;

/// The text held in a `SecretString`.
pub uninterp spec fn secret_string_contents(s: SecretString) -> Seq<char>;

impl View for SecretBytes {
    type V = Seq<u8>;

    open spec fn view(&self) -> Seq<u8> {
        secret_bytes_contents(*self)
    }
}

impl View for SecretString {
    type V = Seq<char>;

    open spec fn view(&self) -> Seq<char> {
        secret_string_contents(*self)
    }
}

impl SecretBytes {
    /// `Zeroizing::new`: takes over the bytes.
    #[verifier::external_body]
    pub fn new(bytes: Vec<u8>) -> (r: Self)
        ensures
            secret_bytes_contents(r) == bytes@,
    {
        SecretBytes { bytes: Zeroizing::new(bytes) }
    }

    /// `Zeroizing::deref`: the bytes held.
    #[verifier::external_body]
    pub fn as_slice(&self) -> (r: &[u8])
        ensures
            r@ == secret_bytes_contents(*self),
    {
        self.bytes.as_slice()
    }
}

impl Clone for SecretBytes {
    /// `Zeroizing::clone`: a new buffer with the same bytes.
    #[verifier::external_body]
    fn clone(&self) -> (r: Self)
        ensures
            secret_bytes_contents(r) == secret_bytes_contents(*self),
    {
        SecretBytes { bytes: self.bytes.clone() }
    }
}

impl Deref for SecretBytes {
    type Target = [u8];

    /// `Zeroizing::deref`: the bytes held.
    #[verifier::external_body]
    fn deref(&self) -> (r: &[u8])
        ensures
            r@ == secret_bytes_contents(*self),
    {
        self.bytes.as_slice()
    }
}

impl SecretString {
    /// `Zeroizing::new`: takes over the text.
    #[verifier::external_body]
    pub fn new(text: String) -> (r: Self)
        ensures
            secret_string_contents(r) == text@,
    {
        SecretString { text: Zeroizing::new(text) }
    }

    /// `Zeroizing::deref`: the text held.
    #[verifier::external_body]
    pub fn as_str(&self) -> (r: &str)
        ensures
            r@ == secret_string_contents(*self),
    {
        self.text.as_str()
    }
}

impl Deref for SecretString {
    type Target = str;

    /// `Zeroizing::deref`: the text held.
    #[verifier::external_body]
    fn deref(&self) -> (r: &str)
        ensures
            r@ == secret_string_contents(*self),
    {
        self.text.as_str()
    }
}

} // verus!
