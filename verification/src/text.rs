//! Small helpers on text.

use vstd::prelude::*;
use vstd::string::*;

verus! {

/// Tells whether two texts are the same.
pub(crate) fn same_text(a: &str, b: &str) -> (same: bool)
    ensures
        same == (a@ == b@),
{
    let left = String::from_str(a);
    let right = String::from_str(b);
    left == right
}

} // verus!
