//! The top-level-domain hint: the rightmost DNS label of the host a stream
//! came from, lower-case ASCII (Punycode for internationalized labels).

use vstd::prelude::*;

verus! {

/// Whether `b` may stand in a hint: ASCII, not a period, not an upper-case
/// letter.
pub open spec fn is_hint_byte(b: u8) -> bool {
    b < 0x80 && b != 0x2e && !(0x41 <= b && b <= 0x5a)
}

/// Whether every byte of `tld` may stand in a hint. The empty hint is valid
/// and stands for the generic "com" policy.
pub open spec fn is_valid_hint(tld: Seq<u8>) -> bool {
    forall|i: int| 0 <= i < tld.len() ==> #[trigger] is_hint_byte(tld[i])
}

/// Checks that `tld` is a well-formed hint: no non-ASCII byte, no period and
/// no upper-case letter. A hint that fails this check shows that the caller
/// did not extract or lower-case the label correctly.
pub fn hint_is_valid(tld: &[u8]) -> (r: bool)
    ensures
        r == is_valid_hint(tld@),
{
    let mut i: usize = 0;
    while i < tld.len()
        invariant
            i <= tld@.len(),
            forall|j: int| 0 <= j < i ==> #[trigger] is_hint_byte(tld@[j]),
        decreases tld@.len() - i,
    {
        let b = tld[i];
        if b >= 0x80 || b == 0x2e || (0x41 <= b && b <= 0x5a) {
            assert(!is_hint_byte(tld@[i as int]));
            return false;
        }
        i = i + 1;
    }
    true
}

} // verus!
