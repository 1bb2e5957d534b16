//! The lottery: a list of entries, a prize pool, and a clock-driven draw
//! paid from the staking pool's custody.
//!
//! The winner is picked from the logical clock, so anyone who can predict or
//! steer the clock can predict or steer the draw: the draw is reproducible,
//! not fair against an adversary.
use vstd::prelude::*;

use crate::account::AccountId;
use crate::error::CoreError;
use crate::staking::{sum_staked, StakeAccount, StakingPool};

verus! {

/// The entries, the prize waiting for the next draw, and when the last draw was.
#[derive(Clone, Debug, PartialEq, Eq)]
pub struct Lottery {
    pub entries: Vec<AccountId>,
    pub prize_pool: u64,
    pub last_draw: i64,
}

/// The result of a draw: who won, and the prize to transfer to them.
#[derive(Clone, Copy, Debug, PartialEq, Eq)]
pub struct DrawOutcome {
    pub winner: AccountId,
    pub prize: u64,
}

/// The index of the winning entry among `len` entries at time `now`: `now`
/// modulo `len`, taken in `0 .. len` also for a negative `now`.
pub open spec fn winner_index(now: i64, len: nat) -> int {
    now as int % len as int
}

/// `now` modulo `len`, in `0 .. len`.
fn clock_index(now: i64, len: usize) -> (i: usize)
    requires
        len > 0,
    ensures
        i == winner_index(now, len as nat),
        i < len,
{
    let l: u64 = len as u64;
    if now >= 0 {
        let m: u64 = (now as u64) % l;
        m as usize
    } else {
        let k: u64 = (-(now + 1)) as u64;
        let m: u64 = k % l;
        proof {
            let q = k as int / l as int;
            vstd::arithmetic::div_mod::lemma_fundamental_div_mod(k as int, l as int);
            assert(now as int == (-q - 1) * (l as int) + (l - 1 - m)) by (nonlinear_arith)
                requires
                    k as int == l as int * q + m as int,
                    now as int == -(k as int) - 1,
            ;
            vstd::arithmetic::div_mod::lemma_fundamental_div_mod_converse(
                now as int,
                l as int,
                -q - 1,
                l - 1 - m,
            );
        }
        (l - 1 - m) as usize
    }
}

/// Why a draw is refused, if it is: there are no entries, or paying the
/// prize out of the pool's custody (`pool_balance`) would leave it below the
/// pool's total.
pub open spec fn draw_error(lottery: Lottery, pool: StakingPool, pool_balance: u64) -> Option<
    CoreError,
> {
    if lottery.entries@.len() == 0 {
        Some(CoreError::EmptyLottery)
    } else if pool_balance - lottery.prize_pool < pool.total_staked {
        Some(CoreError::InsufficientFunds)
    } else {
        None
    }
}

/// Draws a winner at `now` and empties the prize pool into the outcome; the
/// prize is paid from the staking pool's custody, which holds
/// `pool_balance`. A draw with no entries, or one whose prize the custody
/// cannot pay while still covering the pool's total, is refused and the
/// lottery left as it was. The entries and the time of the last draw are
/// not changed.
pub fn draw_lottery(lottery: &mut Lottery, pool: &StakingPool, now: i64, pool_balance: u64) -> (r:
    Result<DrawOutcome, CoreError>)
    ensures
        match r {
            Ok(outcome) => {
                &&& draw_error(*old(lottery), *pool, pool_balance) is None
                &&& outcome.winner == old(lottery).entries@[winner_index(
                    now,
                    old(lottery).entries@.len(),
                )]
                &&& outcome.prize == old(lottery).prize_pool
                &&& final(lottery).entries@ == old(lottery).entries@
                &&& final(lottery).prize_pool == 0
                &&& final(lottery).last_draw == old(lottery).last_draw
            },
            Err(e) => {
                &&& draw_error(*old(lottery), *pool, pool_balance) == Some(e)
                &&& *final(lottery) == *old(lottery)
            },
        },
{
    let len: usize = lottery.entries.len();
    if len == 0 {
        return Err(CoreError::EmptyLottery);
    }
    if pool_balance < lottery.prize_pool || pool_balance - lottery.prize_pool < pool.total_staked {
        return Err(CoreError::InsufficientFunds);
    }
    let index: usize = clock_index(now, len);
    let winner: AccountId = lottery.entries[index];
    let prize: u64 = lottery.prize_pool;
    lottery.prize_pool = 0;
    Ok(DrawOutcome { winner, prize })
}

/// A draw keeps the stakes covered: where the pool's total is at least the
/// sum of the accounts' stakes, an accepted draw leaves the custody, after
/// the prize has left it, at least that sum. No stake account changes.
pub proof fn draw_keeps_stakes_covered(
    accounts: Seq<StakeAccount>,
    lottery: Lottery,
    pool: StakingPool,
    pool_balance: u64,
)
    requires
        sum_staked(accounts) <= pool.total_staked,
        draw_error(lottery, pool, pool_balance) is None,
    ensures
        sum_staked(accounts) <= pool_balance - lottery.prize_pool,
{
}

} // verus!
