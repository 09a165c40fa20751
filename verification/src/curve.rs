//! The record of a curve: its parameters and the supply outstanding.

use vstd::prelude::*;
use crate::error::ErrorCode;
use crate::identity::Identity;
use crate::pricing::{calculate_price, price_at};

verus! {

/// The parameters of one curve together with its supply ledger.
#[derive(Clone, Copy, Debug, PartialEq, Eq)]
pub struct BondingCurveState {
    /// The only party that may change `initial_price` and `slope`.
    pub authority: Identity,
    /// The unit that this curve governs.
    pub token_mint: Identity,
    /// The price of a unit while none is outstanding.
    pub initial_price: u64,
    /// By how much the price rises with each unit outstanding.
    pub slope: u64,
    /// The number of units outstanding.
    pub total_supply: u64,
    /// A byte that the host keeps with the record.
    pub bump: u8,
}

impl BondingCurveState {
    /// A curve is well formed where neither its starting price nor its slope
    /// is zero.
    pub open spec fn wf(&self) -> bool {
        self.initial_price > 0 && self.slope > 0
    }

    /// The unit price at the present supply.
    pub open spec fn spec_price(&self) -> nat {
        price_at(self.total_supply as nat, self.initial_price as nat, self.slope as nat)
    }

    /// Computes the unit price at the present supply, or fails with
    /// `Overflow` where it does not fit in 64 bits.
    pub fn price(&self) -> (r: Result<u64, ErrorCode>)
        ensures
            match r {
                Ok(price) => price == self.spec_price(),
                Err(e) => e == ErrorCode::Overflow && self.spec_price() > u64::MAX,
            },
    {
        calculate_price(self.total_supply, self.initial_price, self.slope)
    }
}

/// What it takes to create a curve.
#[derive(Clone, Copy, Debug, PartialEq, Eq)]
pub struct Initialize {
    /// The unit that the new curve will govern.
    pub token_mint: Identity,
    /// The party that creates the curve and becomes its authority.
    pub authority: Identity,
    /// The byte that the host keeps with the record.
    pub bump: u8,
}

/// A request for new parameters.
#[derive(Clone, Copy, Debug, PartialEq, Eq)]
pub struct UpdateParameters {
    /// The curve to change.
    pub bonding_curve: BondingCurveState,
    /// The party that asks.
    pub authority: Identity,
}

/// Creates a curve with no unit outstanding. Fails with `InvalidParameters`
/// exactly where the starting price or the slope is zero.
pub fn initialize(
    ctx: &Initialize,
    initial_price: u64,
    slope: u64,
) -> (r: Result<BondingCurveState, ErrorCode>)
    ensures
        (initial_price == 0 || slope == 0) ==> r == Err::<BondingCurveState, ErrorCode>(
            ErrorCode::InvalidParameters,
        ),
        (initial_price > 0 && slope > 0) ==> r == Ok::<BondingCurveState, ErrorCode>(
            (BondingCurveState {
                authority: ctx.authority,
                token_mint: ctx.token_mint,
                initial_price,
                slope,
                total_supply: 0,
                bump: ctx.bump,
            }),
        ),
        r is Ok ==> r->Ok_0.wf(),
{
    if initial_price == 0 || slope == 0 {
        return Err(ErrorCode::InvalidParameters);
    }
    Ok(
        BondingCurveState {
            authority: ctx.authority,
            token_mint: ctx.token_mint,
            initial_price,
            slope,
            total_supply: 0,
            bump: ctx.bump,
        },
    )
}

/// Why a request for new parameters is refused, if it is: `Unauthorized`
/// where the party that asks is not the curve's authority, else
/// `InvalidParameters` where a new value is zero.
pub open spec fn update_refusal(
    ctx: UpdateParameters,
    initial_price: u64,
    slope: u64,
) -> Option<ErrorCode> {
    if ctx.authority@ != ctx.bonding_curve.authority@ {
        Some(ErrorCode::Unauthorized)
    } else if initial_price == 0 || slope == 0 {
        Some(ErrorCode::InvalidParameters)
    } else {
        None
    }
}

/// Replaces the starting price and the slope of a curve. Only its authority
/// may do so, and only with values above zero; a refused request changes
/// nothing. The supply, the authority and the unit stay as they are.
pub fn update_parameters(
    ctx: &mut UpdateParameters,
    initial_price: u64,
    slope: u64,
) -> (r: Result<(), ErrorCode>)
    ensures
        match update_refusal(*old(ctx), initial_price, slope) {
            Some(e) => r == Err::<(), ErrorCode>(e) && *final(ctx) == *old(ctx),
            None => r is Ok && *final(ctx) == (UpdateParameters {
                bonding_curve: BondingCurveState {
                    initial_price,
                    slope,
                    ..old(ctx).bonding_curve
                },
                ..*old(ctx)
            }),
        },
        old(ctx).authority@ != old(ctx).bonding_curve.authority@ ==> r == Err::<(), ErrorCode>(
            ErrorCode::Unauthorized,
        ),
        r is Err ==> *final(ctx) == *old(ctx),
        final(ctx).bonding_curve.total_supply == old(ctx).bonding_curve.total_supply,
        final(ctx).bonding_curve.authority == old(ctx).bonding_curve.authority,
        final(ctx).bonding_curve.token_mint == old(ctx).bonding_curve.token_mint,
        old(ctx).bonding_curve.wf() ==> final(ctx).bonding_curve.wf(),
{
    if ctx.authority != ctx.bonding_curve.authority {
        return Err(ErrorCode::Unauthorized);
    }
    if initial_price == 0 || slope == 0 {
        return Err(ErrorCode::InvalidParameters);
    }
    ctx.bonding_curve.initial_price = initial_price;
    ctx.bonding_curve.slope = slope;
    Ok(())
}

} // verus!
