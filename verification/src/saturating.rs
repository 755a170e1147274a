//! Arithmetic that stops at the bounds of its type, taken from `sp_runtime`.

use sp_runtime::{SaturatedConversion, Saturating};
use vstd::prelude::*;

verus! {

/// Steps a counter. Calls `Saturating::saturating_inc` of `sp_runtime`, which adds one and
/// leaves the largest `u64` as it is.
#[verifier::external_body]
pub(crate) fn saturating_inc(counter: &mut u64)
    ensures
        *final(counter) == if *old(counter) == u64::MAX {
            u64::MAX
        } else {
            (*old(counter) + 1) as u64
        },
{
    counter.saturating_inc();
}

/// A balance as a 128-bit weight. Calls `SaturatedConversion::saturated_into` of
/// `sp_runtime`, which converts where the value fits the target, as every balance does,
/// and gives the target's largest value where it does not.
#[verifier::external_body]
pub(crate) fn saturated_into_u128(input: u128) -> (r: u128)
    ensures
        r == input,
{
    input.saturated_into::<u128>()
}

} // verus!
