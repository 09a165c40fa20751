//! A linear bonding curve: the price of a unit grows with the number of units
//! outstanding, and units are bought from and sold back to the curve at that
//! price.
//!
//! Every function here is a total, checked computation on plain values. Moving
//! settlement value and minting or burning units is done elsewhere: a trade
//! names each such action when it is due, is told how it went, and moves the
//! supply once all of them have gone through.

pub mod curve;
pub mod error;
pub mod identity;
pub mod pricing;
pub mod settlement;
pub mod trade;

pub use curve::{initialize, update_parameters, BondingCurveState, Initialize, UpdateParameters};
pub use error::ErrorCode;
pub use identity::Identity;
pub use pricing::calculate_price;
pub use settlement::{advance, Action, Party, TradeError};
pub use trade::{buy_tokens, sell_tokens, BuyTokens, SellTokens, Side, Stage, TokenHolding, Trade};
