//! Saturating arithmetic helpers the engine computes expiries with.

use vstd::prelude::*;

verus! {

/// `a * b` clamped to `u32::MAX`.
pub open spec fn sat_mul_u32(a: u32, b: u32) -> u32 {
    if a * b > u32::MAX {
        u32::MAX
    } else {
        (a * b) as u32
    }
}

/// Multiplies two heights, clamping to the representable maximum instead of
/// wrapping or aborting.
pub fn saturating_mul_u32(a: u32, b: u32) -> (r: u32)
    ensures
        r == sat_mul_u32(a, b),
{
    match a.checked_mul(b) {
        Some(v) => v,
        None => u32::MAX,
    }
}

/// `amount / price` clamped to `u32::MAX`: the number of whole periods a
/// payment buys.
pub open spec fn periods_of(amount: u128, price: u128) -> u32
    recommends
        price > 0,
{
    if amount / price > u32::MAX as u128 {
        u32::MAX
    } else {
        (amount / price) as u32
    }
}

/// Computes the whole periods a payment buys at a given per-period price.
pub fn whole_periods(amount: u128, price: u128) -> (r: u32)
    requires
        price > 0,
    ensures
        r == periods_of(amount, price),
{
    let q: u128 = amount / price;
    if q > u32::MAX as u128 {
        u32::MAX
    } else {
        q as u32
    }
}

} // verus!
