//! PEM framing of keys, through the `pem` crate.

use vstd::prelude::*;
use vstd::utf8::encode_utf8;

verus! {

/// A parsed PEM block: its label and its decoded contents.
pub struct PemBlock {
    pub tag: String,
    pub contents: Vec<u8>,
}

/// The text that `pem::encode` gives for a block with this label and these
/// contents (no headers, CRLF line endings, 64-column lines).
pub uninterp spec fn pem_encoding(tag: Seq<char>, contents: Seq<u8>) -> Seq<char>;

/// What `pem::parse` gives for the input: the label and the decoded
/// contents of its first block, or `None` where it reports an error.
pub uninterp spec fn pem_parsed(input: Seq<u8>) -> Option<(Seq<char>, Seq<u8>)>;

/// A label made of capital letters and spaces only, as all key labels are.
pub open spec fn plain_pem_tag(tag: Seq<char>) -> bool {
    &&& tag.len() > 0
    &&& forall|i: int|
        0 <= i < tag.len() ==> (65 <= (#[trigger] tag[i]) as u32 <= 90 || tag[i] as u32 == 32)
}

/// `pem::parse`: the first PEM block of the input, or the parser's error;
/// which of the two comes, and the block, are named by `pem_parsed`.
#[verifier::external_body]
pub fn pem_parse(input: &[u8]) -> (r: Result<PemBlock, pem::PemError>)
    ensures
        r is Ok <==> pem_parsed(input@) is Some,
        r matches Ok(b) ==> (b.tag@, b.contents@) == pem_parsed(input@).unwrap(),
{
    match pem::parse(input) {
        Ok(p) => Ok(PemBlock { tag: p.tag().to_string(), contents: p.into_contents() }),
        Err(e) => Err(e),
    }
}

/// `pem::encode` of `pem::Pem::new(tag, contents)`: the PEM text of one
/// block, named by `pem_encoding`.  With a label of capital letters and
/// spaces, `pem::parse` reads back exactly this label and these contents
/// from the text's bytes: the encoder writes
/// `-----BEGIN <tag>-----`, Base64 lines and `-----END <tag>-----`, and the
/// parser reads the label between the markers and decodes the lines.
#[verifier::external_body]
pub fn pem_encode(tag: &str, contents: &[u8]) -> (r: String)
    ensures
        r@ == pem_encoding(tag@, contents@),
        plain_pem_tag(tag@) ==> pem_parsed(encode_utf8(r@)) == Some((tag@, contents@)),
{
    pem::encode(&pem::Pem::new(tag, contents.to_vec()))
}

} // verus!
