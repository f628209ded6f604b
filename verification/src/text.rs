//! Comparison of string slices.

use vstd::prelude::*;
use vstd::utf8::encode_utf8_decode_utf8;
use vstd::string::StringSliceAdditionalSpecFns;

verus! {

/// Whether two string slices hold the same text.
///
/// The slices are compared byte by byte; that equal encodings mean equal
/// texts follows from UTF-8 decoding being the inverse of encoding.
pub fn same_text(a: &str, b: &str) -> (same: bool)
    ensures
        same == (a@ == b@),
{
    let left = a.as_bytes();
    let right = b.as_bytes();
    proof {
        encode_utf8_decode_utf8(a@);
        encode_utf8_decode_utf8(b@);
    }
    if left.len() != right.len() {
        return false;
    }
    let mut i: usize = 0;
    while i < left.len()
        invariant
            i <= left.len(),
            left.len() == right.len(),
            left@ == a.spec_bytes(),
            right@ == b.spec_bytes(),
            forall|j: int| 0 <= j < i ==> left@[j] == right@[j],
        decreases left.len() - i,
    {
        if left[i] != right[i] {
            return false;
        }
        i += 1;
    }
    assert(left@ =~= right@);
    true
}

} // verus!
