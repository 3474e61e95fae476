//! Integer helpers.
use vstd::prelude::*;

verus! {

/// The sum of two counts; the sum must fit in a `u64`.
pub fn add(left: u64, right: u64) -> (r: u64)
    requires
        left + right <= u64::MAX,
    ensures
        r == left + right,
{
    left + right
}

} // verus!
