//! Settling a trade: the outside actions it calls for, in their order, and
//! the move of the supply that concludes it.
//!
//! A purchase is paid for first and the units are minted second. A sale has
//! its units burned first and the refund paid second. The caller asks the
//! trade which action is due, carries it out, and reports the outcome with
//! `advance`. The supply moves with the report that the second action went
//! through; a failed action ends the trade with the supply as it was.

use vstd::prelude::*;
use crate::curve::BondingCurveState;
use crate::error::ErrorCode;
use crate::identity::Identity;
use crate::trade::{
    buy_refusal, buy_started, sell_refusal, sell_started, BuyTokens, SellTokens, Side, Stage,
    Trade,
};

verus! {

/// One end of a transfer of settlement value.
#[derive(Clone, Copy, Debug, PartialEq, Eq)]
pub enum Party {
    /// The custody of the curve.
    Custody,
    /// A trader.
    Trader(Identity),
}

/// Something to be done outside the curve for a trade.
#[derive(Clone, Copy, Debug, PartialEq, Eq)]
pub enum Action {
    /// Move `amount` of settlement value from `payer` to `payee`.
    Transfer { payer: Party, payee: Party, amount: u64 },
    /// Create `amount` units of `unit` in the hands of `holder`.
    Mint { unit: Identity, holder: Identity, amount: u64 },
    /// Destroy `amount` units of `unit` in the hands of `holder`.
    Burn { unit: Identity, holder: Identity, amount: u64 },
}

/// Why a trade did not go on.
#[derive(Debug, PartialEq, Eq)]
pub enum TradeError<E> {
    /// The curve itself refused.
    Refused(ErrorCode),
    /// An outside action failed, with the error it gave.
    Outside(E),
}

impl Trade {
    /// The transfer of settlement value that the trade calls for: the total,
    /// from the trader into custody for a purchase, out of custody to the
    /// trader for a sale.
    pub open spec fn payment(&self) -> Action {
        match self.side {
            Side::Buy => Action::Transfer {
                payer: Party::Trader(self.trader),
                payee: Party::Custody,
                amount: self.total,
            },
            Side::Sell => Action::Transfer {
                payer: Party::Custody,
                payee: Party::Trader(self.trader),
                amount: self.total,
            },
        }
    }

    /// The change to the trader's units that the trade calls for: the amount
    /// is minted for a purchase and burned for a sale.
    pub open spec fn delivery(&self) -> Action {
        match self.side {
            Side::Buy => Action::Mint { unit: self.unit, holder: self.trader, amount: self.amount },
            Side::Sell => Action::Burn {
                unit: self.unit,
                holder: self.trader,
                amount: self.amount,
            },
        }
    }

    /// The outside action that is due, if any: for a purchase the payment and
    /// then the delivery, for a sale the delivery and then the payment, and
    /// none once the trade is committed or abandoned.
    pub open spec fn spec_pending(&self) -> Option<Action> {
        match (self.stage, self.side) {
            (Stage::Started, Side::Buy) => Some(self.payment()),
            (Stage::Underway, Side::Buy) => Some(self.delivery()),
            (Stage::Started, Side::Sell) => Some(self.delivery()),
            (Stage::Underway, Side::Sell) => Some(self.payment()),
            _ => None,
        }
    }

    /// The supply that the curve has once the trade is committed, where it
    /// can be: the amount more for a purchase, the amount less for a sale.
    pub open spec fn supply_after(&self, curve: BondingCurveState) -> Option<u64> {
        match self.side {
            Side::Buy => if curve.total_supply + self.amount <= u64::MAX {
                Some((curve.total_supply + self.amount) as u64)
            } else {
                None
            },
            Side::Sell => if curve.total_supply >= self.amount {
                Some((curve.total_supply - self.amount) as u64)
            } else {
                None
            },
        }
    }

    /// Returns the outside action that is due, if any.
    pub fn pending(&self) -> (r: Option<Action>)
        ensures
            r == self.spec_pending(),
    {
        let payment = match self.side {
            Side::Buy => Action::Transfer {
                payer: Party::Trader(self.trader),
                payee: Party::Custody,
                amount: self.total,
            },
            Side::Sell => Action::Transfer {
                payer: Party::Custody,
                payee: Party::Trader(self.trader),
                amount: self.total,
            },
        };
        let delivery = match self.side {
            Side::Buy => Action::Mint { unit: self.unit, holder: self.trader, amount: self.amount },
            Side::Sell => Action::Burn {
                unit: self.unit,
                holder: self.trader,
                amount: self.amount,
            },
        };
        match (self.stage, self.side) {
            (Stage::Started, Side::Buy) => Some(payment),
            (Stage::Underway, Side::Buy) => Some(delivery),
            (Stage::Started, Side::Sell) => Some(delivery),
            (Stage::Underway, Side::Sell) => Some(payment),
            _ => None,
        }
    }
}

/// The curve and the trade after the report that the action due went through
/// (`done`) or failed.
pub open spec fn advanced(
    curve: BondingCurveState,
    trade: Trade,
    done: bool,
) -> (BondingCurveState, Trade) {
    match trade.stage {
        Stage::Committed | Stage::Abandoned => (curve, trade),
        Stage::Started => if done {
            (curve, Trade { stage: Stage::Underway, ..trade })
        } else {
            (curve, Trade { stage: Stage::Abandoned, ..trade })
        },
        Stage::Underway => if done && trade.supply_after(curve) is Some {
            (
                BondingCurveState { total_supply: trade.supply_after(curve).unwrap(), ..curve },
                Trade { stage: Stage::Committed, ..trade },
            )
        } else {
            (curve, Trade { stage: Stage::Abandoned, ..trade })
        },
    }
}

/// What the report of an outcome is answered with: the error of a failed
/// action, handed on as it came; `Overflow` or `Underflow` where the last
/// action went through and the supply cannot move; and otherwise success.
pub open spec fn answer<E>(
    curve: BondingCurveState,
    trade: Trade,
    outcome: Result<(), E>,
) -> Result<(), TradeError<E>> {
    match (outcome, trade.stage) {
        (Err(e), _) => Err(TradeError::Outside(e)),
        (Ok(_), Stage::Underway) => match (trade.supply_after(curve), trade.side) {
            (Some(_), _) => Ok(()),
            (None, Side::Buy) => Err(TradeError::Refused(ErrorCode::Overflow)),
            (None, Side::Sell) => Err(TradeError::Refused(ErrorCode::Underflow)),
        },
        (Ok(_), _) => Ok(()),
    }
}

/// Takes the outcome of the action that was due. A first action that went
/// through makes the second one due. A second action that went through moves
/// the supply of `curve` by the amount of the trade and commits the trade. An
/// action that failed abandons the trade and leaves the curve as it was, and
/// so does a supply that cannot move. A trade that is committed or abandoned
/// already stays as it is, and so does the curve; a failure reported for it is
/// handed on all the same.
pub fn advance<E>(
    curve: &mut BondingCurveState,
    trade: &mut Trade,
    outcome: Result<(), E>,
) -> (r: Result<(), TradeError<E>>)
    ensures
        (*final(curve), *final(trade)) == advanced(*old(curve), *old(trade), outcome is Ok),
        r == answer(*old(curve), *old(trade), outcome),
        (outcome is Err || r is Err) ==> *final(curve) == *old(curve),
        (outcome is Err || r is Err) ==> final(trade).spec_pending() is None,
        final(curve).wf() == old(curve).wf(),
{
    let failed = match outcome {
        Ok(_) => None,
        Err(e) => Some(e),
    };
    match (trade.stage, failed) {
        (Stage::Committed, None) | (Stage::Abandoned, None) => Ok(()),
        (Stage::Committed, Some(e)) | (Stage::Abandoned, Some(e)) => Err(TradeError::Outside(e)),
        (_, Some(e)) => {
            trade.stage = Stage::Abandoned;
            Err(TradeError::Outside(e))
        },
        (Stage::Started, None) => {
            trade.stage = Stage::Underway;
            Ok(())
        },
        (Stage::Underway, None) => {
            let moved = match trade.side {
                Side::Buy => curve.total_supply.checked_add(trade.amount),
                Side::Sell => curve.total_supply.checked_sub(trade.amount),
            };
            match moved {
                Some(supply) => {
                    curve.total_supply = supply;
                    trade.stage = Stage::Committed;
                    Ok(())
                },
                None => {
                    trade.stage = Stage::Abandoned;
                    match trade.side {
                        Side::Buy => Err(TradeError::Refused(ErrorCode::Overflow)),
                        Side::Sell => Err(TradeError::Refused(ErrorCode::Underflow)),
                    }
                },
            }
        },
    }
}

/// The curve and the trade after both actions of a trade that has just
/// started went through.
pub open spec fn settled(curve: BondingCurveState, trade: Trade) -> (BondingCurveState, Trade) {
    let (curve, trade) = advanced(curve, trade, true);
    advanced(curve, trade, true)
}

/// A purchase that is not refused and whose two actions go through is
/// committed, and raises the supply by exactly its amount; nothing else of
/// the curve changes.
pub proof fn lemma_buy_raises_supply(ctx: BuyTokens, amount: u64)
    requires
        buy_refusal(ctx, amount) is None,
    ensures
        settled(ctx.bonding_curve, buy_started(ctx, amount)).1.stage == Stage::Committed,
        settled(ctx.bonding_curve, buy_started(ctx, amount)).0.total_supply
            == ctx.bonding_curve.total_supply + amount,
        settled(ctx.bonding_curve, buy_started(ctx, amount)).0 == (BondingCurveState {
            total_supply: settled(ctx.bonding_curve, buy_started(ctx, amount)).0.total_supply,
            ..ctx.bonding_curve
        }),
{
}

/// A sale that is not refused and whose two actions go through is committed,
/// and lowers the supply by exactly its amount; nothing else of the curve
/// changes.
pub proof fn lemma_sell_lowers_supply(ctx: SellTokens, amount: u64)
    requires
        sell_refusal(ctx, amount) is None,
    ensures
        settled(ctx.bonding_curve, sell_started(ctx, amount)).1.stage == Stage::Committed,
        settled(ctx.bonding_curve, sell_started(ctx, amount)).0.total_supply
            == ctx.bonding_curve.total_supply - amount,
        settled(ctx.bonding_curve, sell_started(ctx, amount)).0 == (BondingCurveState {
            total_supply: settled(ctx.bonding_curve, sell_started(ctx, amount)).0.total_supply,
            ..ctx.bonding_curve
        }),
{
}

/// Selling more units than are outstanding is refused with `Underflow`,
/// provided that the request is otherwise in order: it names the curve's unit,
/// presents the seller's own holding of that unit with enough units in it, and
/// its refund fits in 64 bits.
pub proof fn lemma_sell_beyond_supply(ctx: SellTokens, amount: u64)
    requires
        amount > ctx.bonding_curve.total_supply,
        ctx.token_mint@ == ctx.bonding_curve.token_mint@,
        ctx.seller_token_account.owner@ == ctx.seller@,
        ctx.seller_token_account.mint@ == ctx.token_mint@,
        ctx.seller_token_account.amount >= amount,
        ctx.bonding_curve.spec_price() * amount <= u64::MAX,
    ensures
        sell_refusal(ctx, amount) == Some(ErrorCode::Underflow),
{
}

/// The curve changes only when a trade is committed, and then only in its
/// supply: whatever the stage and the outcome reported, either the curve is
/// as it was, or the second action has just gone through.
pub proof fn lemma_all_or_nothing(curve: BondingCurveState, trade: Trade, done: bool)
    ensures
        advanced(curve, trade, done).0 == curve || {
            &&& done
            &&& trade.stage == Stage::Underway
            &&& advanced(curve, trade, done).1.stage == Stage::Committed
            &&& advanced(curve, trade, done).0 == (BondingCurveState {
                total_supply: trade.supply_after(curve).unwrap(),
                ..curve
            })
        },
        !done ==> advanced(curve, trade, done).0 == curve,
        !done ==> advanced(curve, trade, done).1.spec_pending() is None,
{
}

/// Units bought and sold straight back leave the supply where it was, yet the
/// refund exceeds the cost by the slope times the square of the amount: the
/// purchase is priced at the supply before it, the sale at the supply after.
pub proof fn lemma_round_trip(buy: BuyTokens, sell: SellTokens, amount: u64)
    requires
        buy_refusal(buy, amount) is None,
        sell.bonding_curve == settled(buy.bonding_curve, buy_started(buy, amount)).0,
        sell_refusal(sell, amount) is None,
    ensures
        settled(sell.bonding_curve, sell_started(sell, amount)).0 == buy.bonding_curve,
        sell_started(sell, amount).total - buy_started(buy, amount).total == amount * amount
            * buy.bonding_curve.slope,
{
    let before = buy.bonding_curve;
    let after = sell.bonding_curve;
    assert(after.spec_price() * amount - before.spec_price() * amount == amount * amount
        * before.slope) by (nonlinear_arith)
        requires
            after.spec_price() == before.initial_price + (before.total_supply + amount)
                * before.slope,
            before.spec_price() == before.initial_price + before.total_supply * before.slope,
    ;
}

/// On a well-formed curve a purchase whose cost fits in 64 bits leaves a supply
/// that fits too: such a purchase is never refused for its supply.
pub proof fn lemma_supply_fits_where_cost_does(ctx: BuyTokens, amount: u64)
    requires
        ctx.bonding_curve.wf(),
        amount > 0,
        ctx.bonding_curve.spec_price() * amount <= u64::MAX,
    ensures
        ctx.bonding_curve.total_supply + amount <= u64::MAX,
{
    let curve = ctx.bonding_curve;
    assert(curve.total_supply + amount <= (curve.initial_price + curve.total_supply * curve.slope)
        * amount) by (nonlinear_arith)
        requires
            curve.initial_price >= 1,
            curve.slope >= 1,
            amount >= 1,
            curve.total_supply >= 0,
    ;
}

} // verus!
