//! The ways in which an operation on a curve can be refused.

use vstd::prelude::*;

verus! {

/// Why an operation was refused. A refused operation changes nothing.
#[derive(Clone, Copy, Debug, PartialEq, Eq, Structural)]
pub enum ErrorCode {
    /// A price, a trade total or the supply would exceed the integer range.
    Overflow,
    /// More units are sold than are outstanding.
    Underflow,
    /// A starting price or a slope of zero.
    InvalidParameters,
    /// A trade of zero units.
    InvalidAmount,
    /// The unit named in the request is not the one the curve governs.
    InvalidTokenMint,
    /// The holding presented belongs to someone else or holds another unit.
    InvalidTokenAccount,
    /// The holding presented has fewer units than are sold.
    InsufficientTokens,
    /// Someone other than the authority asked for new parameters.
    Unauthorized,
}

} // verus!
