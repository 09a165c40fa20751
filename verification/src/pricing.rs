//! The pricing function of the curve.

use vstd::prelude::*;
use crate::error::ErrorCode;

verus! {

/// The unit price at a given supply: the starting price plus the slope for
/// every unit outstanding.
pub open spec fn price_at(supply: nat, initial_price: nat, slope: nat) -> nat {
    initial_price + supply * slope
}

/// The price never falls as the supply grows.
pub proof fn lemma_price_monotonic(low: nat, high: nat, initial_price: nat, slope: nat)
    requires
        low <= high,
    ensures
        price_at(low, initial_price, slope) <= price_at(high, initial_price, slope),
{
    assert(low * slope <= high * slope) by (nonlinear_arith)
        requires
            low <= high,
    ;
}

/// Computes the unit price at `supply`, or fails with `Overflow` where it does
/// not fit in 64 bits.
pub fn calculate_price(supply: u64, initial_price: u64, slope: u64) -> (r: Result<u64, ErrorCode>)
    ensures
        match r {
            Ok(price) => price == price_at(supply as nat, initial_price as nat, slope as nat),
            Err(e) => e == ErrorCode::Overflow && price_at(
                supply as nat,
                initial_price as nat,
                slope as nat,
            ) > u64::MAX,
        },
{
    match supply.checked_mul(slope) {
        None => Err(ErrorCode::Overflow),
        Some(rise) => match initial_price.checked_add(rise) {
            None => Err(ErrorCode::Overflow),
            Some(price) => Ok(price),
        },
    }
}

} // verus!
