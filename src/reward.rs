//! Reward accrual for a stake of a given size held for a given time.
use vstd::prelude::*;

verus! {

/// Number of base units in one whole token (six decimals).
pub const TOKEN_SCALE: u64 = 1_000_000;

/// Stakes of at least this many base units earn the top rate.
pub const TOP_TIER_THRESHOLD: u64 = 10_000_000_000;

/// Stakes of at least this many base units earn the middle rate.
pub const MIDDLE_TIER_THRESHOLD: u64 = 1_000_000_000;

/// A stake held longer than this many seconds earns twice the reward.
pub const LONG_STAKE_SECONDS: i64 = 2_592_000;

/// The rate, in percent, that a stake of `amount` base units earns.
pub open spec fn rate_percent(amount: u64) -> int {
    if amount >= TOP_TIER_THRESHOLD {
        15
    } else if amount >= MIDDLE_TIER_THRESHOLD {
        12
    } else {
        10
    }
}

/// The factor applied to a reward for a stake held `duration` seconds.
pub open spec fn duration_multiplier(duration: i64) -> int {
    if duration > LONG_STAKE_SECONDS {
        2
    } else {
        1
    }
}

/// The reward for staking `amount` base units over `duration` seconds.
pub open spec fn reward_of(amount: u64, duration: i64) -> int {
    (amount * rate_percent(amount)) / 100 * duration_multiplier(duration)
}

/// Computes the reward for staking `amount` over `duration` seconds.
///
/// The result depends on the two arguments alone and always fits in a `u64`:
/// at most 30% of `amount`.
pub fn calculate_reward(amount: u64, duration: i64) -> (r: u64)
    ensures
        r == reward_of(amount, duration),
{
    let rate: u128 = if amount >= TOP_TIER_THRESHOLD {
        15
    } else if amount >= MIDDLE_TIER_THRESHOLD {
        12
    } else {
        10
    };
    let multiplier: u128 = if duration > LONG_STAKE_SECONDS {
        2
    } else {
        1
    };
    let a: u128 = amount as u128;
    proof {
        assert(a * rate <= 15 * 0xffff_ffff_ffff_ffff) by (nonlinear_arith)
            requires
                a <= 0xffff_ffff_ffff_ffff,
                rate <= 15,
        ;
    }
    let base: u128 = a * rate / 100;
    proof {
        assert(base * multiplier <= 0xffff_ffff_ffff_ffff) by (nonlinear_arith)
            requires
                base == a * rate / 100,
                a * rate <= 15 * 0xffff_ffff_ffff_ffff,
                multiplier <= 2,
        ;
    }
    (base * multiplier) as u64
}

/// A stake of nothing earns nothing, however long it is held.
pub proof fn reward_of_zero_amount(duration: i64)
    ensures
        reward_of(0, duration) == 0,
{
}

} // verus!
