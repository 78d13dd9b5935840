//! Decoding the GBK text of the real-time quote service.
use vstd::prelude::*;

verus! {

/// What `encoding_rs::GBK.decode` gives for a byte string: the text, with a
/// leading byte-order mark choosing its encoding and malformed sequences
/// replaced by U+FFFD.
pub uninterp spec fn gbk_decoded(bytes: Seq<u8>) -> Seq<char>;

/// Bytes below 0x80 read as the characters with those codes.
pub open spec fn ascii_chars(bytes: Seq<u8>) -> Seq<char> {
    bytes.map_values(|b: u8| b as char)
}

/// Decodes GBK bytes to text (`encoding_rs::GBK.decode`). The result is named;
/// the one fact stated of it is the one the crate documents: GBK is
/// ASCII-compatible, so bytes that are all below 0x80 read as themselves.
#[verifier::external_body]
pub fn decode_gbk(bytes: &[u8]) -> (r: String)
    ensures
        r@ == gbk_decoded(bytes@),
        (forall|i: int| 0 <= i < bytes@.len() ==> bytes@[i] < 0x80) ==> r@ == ascii_chars(bytes@),
{
    let (decoded, _, _) = encoding_rs::GBK.decode(bytes);
    decoded.into_owned()
}

} // verus!
