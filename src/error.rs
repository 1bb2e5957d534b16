//! The errors that an operation of the core can report.
use vstd::prelude::*;

verus! {

/// Why an operation was refused. A refused operation changes no record.
#[derive(Clone, Copy, Debug, PartialEq, Eq, Structural)]
pub enum CoreError {
    /// A stake of zero tokens.
    InvalidAmount,
    /// A token balance is too low for a transfer that the operation needs.
    InsufficientFunds,
    /// A withdrawal asks for more than the account has staked.
    InsufficientStake,
    /// A lottery was drawn with no entries.
    EmptyLottery,
    /// An intermediate value does not fit in its fixed-width representation.
    ArithmeticOverflow,
}

} // verus!
