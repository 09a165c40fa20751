//! Buying units from a curve and selling them back to it.
//!
//! A trade touches three things: settlement value changes hands, units are
//! minted or burned, and the supply of the curve moves. The first two happen
//! outside the curve and may fail, so a trade is run in steps. `buy_tokens` or
//! `sell_tokens` checks and prices the request and changes nothing; settling
//! the trade that it returns is the business of the module `settlement`.

use vstd::prelude::*;
use crate::curve::BondingCurveState;
use crate::error::ErrorCode;
use crate::identity::Identity;

verus! {

/// A balance of one unit, held by one party.
#[derive(Clone, Copy, Debug, PartialEq, Eq)]
pub struct TokenHolding {
    /// The unit held.
    pub mint: Identity,
    /// The party that holds it.
    pub owner: Identity,
    /// How many units are held.
    pub amount: u64,
}

/// A request to buy units from a curve.
#[derive(Clone, Copy, Debug, PartialEq, Eq)]
pub struct BuyTokens {
    /// The curve to buy from.
    pub bonding_curve: BondingCurveState,
    /// The unit asked for.
    pub token_mint: Identity,
    /// The party that pays and receives the units.
    pub buyer: Identity,
}

/// A request to sell units back to a curve.
#[derive(Clone, Copy, Debug, PartialEq, Eq)]
pub struct SellTokens {
    /// The curve to sell to.
    pub bonding_curve: BondingCurveState,
    /// The unit offered.
    pub token_mint: Identity,
    /// The holding that the units are taken from.
    pub seller_token_account: TokenHolding,
    /// The party that gives up the units and is paid.
    pub seller: Identity,
}

/// Whether units are bought from the curve or sold back to it.
#[derive(Clone, Copy, Debug, PartialEq, Eq, Structural)]
pub enum Side {
    Buy,
    Sell,
}

/// How far a trade has come.
#[derive(Clone, Copy, Debug, PartialEq, Eq, Structural)]
pub enum Stage {
    /// Nothing has happened yet: the first outside action is due.
    Started,
    /// The first outside action has gone through: the second is due.
    Underway,
    /// Both outside actions have gone through and the supply has moved.
    Committed,
    /// An outside action has failed, or the supply could not move. The
    /// supply is as it was.
    Abandoned,
}

/// A trade that has been checked and priced.
#[derive(Clone, Copy, Debug, PartialEq, Eq)]
pub struct Trade {
    /// Whether the trader buys or sells.
    pub side: Side,
    /// The unit traded.
    pub unit: Identity,
    /// The party that trades with the curve.
    pub trader: Identity,
    /// The number of units traded.
    pub amount: u64,
    /// The unit price, taken at the supply that the request found.
    pub price: u64,
    /// The price times the amount: the cost of a purchase, the refund of a
    /// sale.
    pub total: u64,
    /// How far the trade has come.
    pub stage: Stage,
}

/// Why a purchase is refused, if it is. The checks are made in this order,
/// and the first that fails gives the reason.
pub open spec fn buy_refusal(ctx: BuyTokens, amount: u64) -> Option<ErrorCode> {
    let curve = ctx.bonding_curve;
    if amount == 0 {
        Some(ErrorCode::InvalidAmount)
    } else if ctx.token_mint@ != curve.token_mint@ {
        Some(ErrorCode::InvalidTokenMint)
    } else if curve.spec_price() * amount > u64::MAX {
        Some(ErrorCode::Overflow)
    } else if curve.total_supply + amount > u64::MAX {
        Some(ErrorCode::Overflow)
    } else {
        None
    }
}

/// Why a sale is refused, if it is. The checks are made in this order, and
/// the first that fails gives the reason.
pub open spec fn sell_refusal(ctx: SellTokens, amount: u64) -> Option<ErrorCode> {
    let curve = ctx.bonding_curve;
    let holding = ctx.seller_token_account;
    if amount == 0 {
        Some(ErrorCode::InvalidAmount)
    } else if ctx.token_mint@ != curve.token_mint@ {
        Some(ErrorCode::InvalidTokenMint)
    } else if holding.owner@ != ctx.seller@ || holding.mint@ != ctx.token_mint@ {
        Some(ErrorCode::InvalidTokenAccount)
    } else if holding.amount < amount {
        Some(ErrorCode::InsufficientTokens)
    } else if curve.spec_price() * amount > u64::MAX {
        Some(ErrorCode::Overflow)
    } else if curve.total_supply < amount {
        Some(ErrorCode::Underflow)
    } else {
        None
    }
}

/// The trade that a purchase which is not refused starts.
pub open spec fn buy_started(ctx: BuyTokens, amount: u64) -> Trade {
    Trade {
        side: Side::Buy,
        unit: ctx.token_mint,
        trader: ctx.buyer,
        amount,
        price: ctx.bonding_curve.spec_price() as u64,
        total: (ctx.bonding_curve.spec_price() * amount) as u64,
        stage: Stage::Started,
    }
}

/// The trade that a sale which is not refused starts.
pub open spec fn sell_started(ctx: SellTokens, amount: u64) -> Trade {
    Trade {
        side: Side::Sell,
        unit: ctx.token_mint,
        trader: ctx.seller,
        amount,
        price: ctx.bonding_curve.spec_price() as u64,
        total: (ctx.bonding_curve.spec_price() * amount) as u64,
        stage: Stage::Started,
    }
}

/// The total of a trade of at least one unit is no less than the unit price.
proof fn lemma_total_bounds_price(price: nat, amount: nat)
    requires
        amount > 0,
    ensures
        price <= price * amount,
{
    assert(price * 1 <= price * amount) by (nonlinear_arith)
        requires
            1 <= amount,
    ;
}

/// Checks and prices a purchase of `amount` units at the present supply. The
/// curve is not changed: the trade returned has yet to be settled. A request
/// is refused for the first of these that holds: the amount is zero; the unit
/// is not the curve's; the price, the cost or the supply after the purchase
/// does not fit in 64 bits.
pub fn buy_tokens(ctx: &BuyTokens, amount: u64) -> (r: Result<Trade, ErrorCode>)
    ensures
        match buy_refusal(*ctx, amount) {
            Some(e) => r == Err::<Trade, ErrorCode>(e),
            None => r == Ok::<Trade, ErrorCode>(buy_started(*ctx, amount)),
        },
        amount == 0 ==> r == Err::<Trade, ErrorCode>(ErrorCode::InvalidAmount),
        r is Ok ==> r->Ok_0.price == ctx.bonding_curve.spec_price() && r->Ok_0.total
            == r->Ok_0.price * amount,
{
    if amount == 0 {
        return Err(ErrorCode::InvalidAmount);
    }
    if ctx.token_mint != ctx.bonding_curve.token_mint {
        return Err(ErrorCode::InvalidTokenMint);
    }
    proof {
        lemma_total_bounds_price(ctx.bonding_curve.spec_price(), amount as nat);
    }
    let price = ctx.bonding_curve.price()?;
    let total = match price.checked_mul(amount) {
        Some(total) => total,
        None => {
            return Err(ErrorCode::Overflow);
        },
    };
    if ctx.bonding_curve.total_supply.checked_add(amount).is_none() {
        return Err(ErrorCode::Overflow);
    }
    Ok(
        Trade {
            side: Side::Buy,
            unit: ctx.token_mint,
            trader: ctx.buyer,
            amount,
            price,
            total,
            stage: Stage::Started,
        },
    )
}

/// Checks and prices a sale of `amount` units at the present supply. The
/// curve is not changed: the trade returned has yet to be settled. A request
/// is refused for the first of these that holds: the amount is zero; the unit
/// is not the curve's; the holding presented is not the seller's or not of
/// that unit; it holds fewer units than are sold; the price or the refund
/// does not fit in 64 bits; more units are sold than are outstanding.
pub fn sell_tokens(ctx: &SellTokens, amount: u64) -> (r: Result<Trade, ErrorCode>)
    ensures
        match sell_refusal(*ctx, amount) {
            Some(e) => r == Err::<Trade, ErrorCode>(e),
            None => r == Ok::<Trade, ErrorCode>(sell_started(*ctx, amount)),
        },
        amount == 0 ==> r == Err::<Trade, ErrorCode>(ErrorCode::InvalidAmount),
        r is Ok ==> r->Ok_0.price == ctx.bonding_curve.spec_price() && r->Ok_0.total
            == r->Ok_0.price * amount,
{
    if amount == 0 {
        return Err(ErrorCode::InvalidAmount);
    }
    if ctx.token_mint != ctx.bonding_curve.token_mint {
        return Err(ErrorCode::InvalidTokenMint);
    }
    if ctx.seller_token_account.owner != ctx.seller || ctx.seller_token_account.mint
        != ctx.token_mint {
        return Err(ErrorCode::InvalidTokenAccount);
    }
    if ctx.seller_token_account.amount < amount {
        return Err(ErrorCode::InsufficientTokens);
    }
    proof {
        lemma_total_bounds_price(ctx.bonding_curve.spec_price(), amount as nat);
    }
    let price = ctx.bonding_curve.price()?;
    let total = match price.checked_mul(amount) {
        Some(total) => total,
        None => {
            return Err(ErrorCode::Overflow);
        },
    };
    if ctx.bonding_curve.total_supply < amount {
        return Err(ErrorCode::Underflow);
    }
    Ok(
        Trade {
            side: Side::Sell,
            unit: ctx.token_mint,
            trader: ctx.seller,
            amount,
            price,
            total,
            stage: Stage::Started,
        },
    )
}

} // verus!
