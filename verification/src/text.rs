//! Small verified helpers for working with strings.

use vstd::prelude::*;
use vstd::string::StrSliceExecFns;

verus! {

/// Compares two string slices character by character.
pub fn str_eq(left: &str, right: &str) -> (result: bool)
    ensures
        result == (left@ == right@),
{
    let left_len = left.unicode_len();
    let right_len = right.unicode_len();
    if left_len != right_len {
        return false;
    }
    let mut i: usize = 0;
    while i < left_len
        invariant
            i <= left_len,
            left_len == left@.len(),
            left_len == right@.len(),
            forall|j: int| 0 <= j < i ==> left@[j] == right@[j],
        decreases left_len - i,
    {
        if left.get_char(i) != right.get_char(i) {
            return false;
        }
        i = i + 1;
    }
    proof {
        assert(left@ =~= right@);
    }
    true
}

} // verus!
