//! A global threshold and the test against it.

use vstd::prelude::*;

verus! {

/// Numbers above this are big.
pub const THRESHOLD: i32 = 10;

/// Whether `n` exceeds the threshold.
pub fn is_big(n: i32) -> (b: bool)
    ensures
        b == (n > THRESHOLD),
{
    n > THRESHOLD
}

} // verus!
