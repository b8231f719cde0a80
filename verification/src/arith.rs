//! Small arithmetic helpers.

use vstd::prelude::*;

verus! {

/// Sum of two machine integers; the caller keeps the sum in range.
pub fn add(a: i32, b: i32) -> (r: i32)
    requires
        i32::MIN <= a + b <= i32::MAX,
    ensures
        r == a + b,
{
    a + b
}

/// Whether a number is even.
pub fn is_even(n: i32) -> (r: bool)
    ensures
        r <==> n as int % 2 == 0,
{
    n % 2 == 0
}

} // verus!
