//! Text helpers shared by the other modules: comparing string slices and
//! turning captured bytes into text.

use vstd::prelude::*;
use vstd::utf8::*;

verus! {

/// The text that lossy UTF-8 decoding makes of a byte sequence: the bytes
/// read as UTF-8, with each invalid sequence replaced by U+FFFD.
///
/// The replacement rule is the standard library's and is not written out
/// here. [`decode_lossy`] is the only source of facts about this function.
pub uninterp spec fn lossy_text(bytes: Seq<u8>) -> Seq<char>;

/// Decodes bytes as UTF-8 text, replacing what is not valid UTF-8.
///
/// Trusted: the body is one call of `String::from_utf8_lossy`. The contract
/// names its result [`lossy_text`] of the bytes, and states the one case that
/// the standard library's documentation spells out in a line: bytes that are
/// already valid UTF-8 are decoded as they stand.
#[verifier::external_body]
pub(crate) fn decode_lossy(bytes: &[u8]) -> (text: String)
    ensures
        text@ == lossy_text(bytes@),
        valid_utf8(bytes@) ==> text@ == decode_utf8(bytes@),
{
    String::from_utf8_lossy(bytes).into_owned()
}

/// Whether two string slices hold the same text.
pub fn text_eq(a: &str, b: &str) -> (same: bool)
    ensures
        same == (a@ == b@),
{
    let x = a.as_bytes();
    let y = b.as_bytes();
    proof {
        encode_utf8_decode_utf8(a@);
        encode_utf8_decode_utf8(b@);
    }
    if x.len() != y.len() {
        return false;
    }
    let mut i: usize = 0;
    while i < x.len()
        invariant
            i <= x.len(),
            x.len() == y.len(),
            x@ == encode_utf8(a@),
            y@ == encode_utf8(b@),
            decode_utf8(encode_utf8(a@)) == a@,
            decode_utf8(encode_utf8(b@)) == b@,
            forall|k: int| 0 <= k < i ==> x@[k] == y@[k],
        decreases x.len() - i,
    {
        if x[i] != y[i] {
            return false;
        }
        i = i + 1;
    }
    assert(x@ =~= y@);
    true
}

} // verus!
