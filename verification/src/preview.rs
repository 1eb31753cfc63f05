//! The preview pane's content policy.
//!
//! Two explicit decisions: content holding a NUL byte is rejected as binary
//! instead of being painted as garbage, and only a bounded head of the
//! lines is shown.

use vstd::prelude::*;

verus! {

/// Content the preview must reject as binary: it holds a NUL byte.
pub open spec fn has_nul(bytes: Seq<u8>) -> bool {
    exists|i: int| 0 <= i < bytes.len() && bytes[i] == 0u8
}

/// Whether file content is rejected as binary rather than previewed.
pub fn looks_binary(bytes: &[u8]) -> (r: bool)
    ensures
        r == has_nul(bytes@),
{
    let mut i: usize = 0;
    while i < bytes.len()
        invariant
            i <= bytes@.len(),
            forall|j: int| 0 <= j < i ==> bytes@[j] != 0u8,
        decreases bytes@.len() - i,
    {
        if bytes[i] == 0 {
            return true;
        }
        i = i + 1;
    }
    false
}

/// The lines the preview shows: the first `max` of them, all when there
/// are fewer.
pub fn head_lines(lines: Vec<String>, max: usize) -> (r: Vec<String>)
    ensures
        lines@.len() <= max ==> r@ == lines@,
        lines@.len() > max ==> r@ == lines@.subrange(0, max as int),
{
    let mut r = lines;
    r.truncate(max);
    r
}

} // verus!
