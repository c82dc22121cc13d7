//! Text encodings: UTF-8 checking, decimal numbers and Base64.

use base64::Engine as _;
use vstd::prelude::*;
use vstd::utf8::{decode_utf8, valid_utf8};

verus! {

/// The character of a decimal digit.
pub open spec fn digit_char(d: nat) -> char {
    (48 + d) as char
}

/// The decimal representation of a natural number, without leading zeros.
pub open spec fn decimal(n: nat) -> Seq<char>
    decreases n,
{
    if n < 10 {
        seq![digit_char(n)]
    } else {
        decimal(n / 10).push(digit_char(n % 10))
    }
}

/// What Base64 decoding (standard alphabet, with padding) gives for the
/// input: the decoded bytes, or the decoder's error where the input is not
/// valid Base64.
pub uninterp spec fn base64_decoded(input: Seq<u8>) -> std::result::Result<Seq<u8>, base64::DecodeError>;

/// `std::str::from_utf8`: the input as a string slice where it is valid
/// UTF-8, and an error where it is not.
#[verifier::external_body]
pub fn str_from_utf8(bytes: &[u8]) -> (r: std::result::Result<&str, std::str::Utf8Error>)
    ensures
        r is Ok <==> valid_utf8(bytes@),
        r matches Ok(s) ==> s@ == decode_utf8(bytes@),
{
    std::str::from_utf8(bytes)
}

/// `usize::to_string`: the decimal representation of the number.
#[verifier::external_body]
pub fn decimal_string(n: usize) -> (r: String)
    ensures
        r@ == decimal(n as nat),
{
    n.to_string()
}

/// `base64::engine::general_purpose::STANDARD.decode`: the decoded bytes,
/// or the decoder's error; which of the two comes, the bytes and the error
/// are named by `base64_decoded`.
#[verifier::external_body]
pub fn base64_decode(data: &[u8]) -> (r: std::result::Result<Vec<u8>, base64::DecodeError>)
    ensures
        r is Ok <==> base64_decoded(data@) is Ok,
        r matches Ok(v) ==> (base64_decoded(data@) matches Ok(d) && d == v@),
        r matches Err(e) ==> (base64_decoded(data@) matches Err(x) && x == e),
{
    base64::engine::general_purpose::STANDARD.decode(data)
}

} // verus!
