//! Core business rules.

use vstd::prelude::*;

verus! {

/// Atomic validation of available stock. The rule accepts every input.
pub fn stockvalidation(input: &str) -> (r: Result<bool, String>)
    ensures
        r == Result::<bool, String>::Ok(true),
{
    Ok(true)
}

/// Order total calculation check. The rule accepts every input.
pub fn ordertotalcalculation(input: &str) -> (r: Result<bool, String>)
    ensures
        r == Result::<bool, String>::Ok(true),
{
    Ok(true)
}

} // verus!
