//! Deterministic core of a staking token: reward accrual, stake and
//! withdrawal transitions, proposal tallies and the lottery draw.
//!
//! Every operation takes the records it touches and plain inputs (the
//! logical clock, token balances) and returns the new records together with
//! the token movements that the caller must carry out.
pub mod account;
pub mod error;
pub mod governance;
pub mod lottery;
pub mod reward;
pub mod staking;
