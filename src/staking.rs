//! Stake accounts, the staking pool, and the stake / withdraw transitions.
//!
//! The pool's `total_staked` is the sum of the stakes recorded in its
//! accounts: every transition moves an account's stake and the pool's total
//! by the same amount. The pool's token balance (its custody) is held by the
//! token ledger outside this core; each transition takes it as an input, says
//! in its receipt which tokens move, and refuses any payment out of the
//! custody that would leave it below the pool's total.
use vstd::prelude::*;

use crate::account::AccountId;
use crate::error::CoreError;
use crate::reward::{calculate_reward, reward_of};

verus! {

/// A withdrawal made sooner than this many seconds after the last stake
/// pays a penalty.
pub const MIN_STAKE_DURATION: i64 = 604_800;

/// Base units minted to an account on its first stake (100 whole tokens).
pub const FIRST_STAKE_BONUS: u64 = 100_000_000;

/// The stake that one owner holds in the pool.
#[derive(Clone, Copy, Debug, PartialEq, Eq)]
pub struct StakeAccount {
    pub total_staked: u64,
    pub reward_accumulated: u64,
    pub last_staked_timestamp: i64,
    pub referrer: Option<AccountId>,
    /// The first-stake bonus has been minted to this account. Set by its
    /// first accepted stake and never cleared.
    pub bonus_paid: bool,
}

/// The pool's record: its parameters and the sum of its accounts' stakes.
#[derive(Clone, Copy, Debug, PartialEq, Eq)]
pub struct StakingPool {
    pub reward_rate: u64,
    pub lock_duration: i64,
    pub total_staked: u64,
}

/// The token movements of an accepted stake.
#[derive(Clone, Copy, Debug, PartialEq, Eq)]
pub struct StakeReceipt {
    /// Moved from the staker's balance into the pool's custody.
    pub deposited: u64,
    /// Moved from the pool's custody to the referrer (zero without one).
    pub referral_bonus: u64,
    /// Minted to the staker (zero unless this was the first stake).
    pub airdrop: u64,
}

/// The token movements of an accepted withdrawal.
#[derive(Clone, Copy, Debug, PartialEq, Eq)]
pub struct WithdrawReceipt {
    /// Moved from the pool's custody to the staker.
    pub paid_out: u64,
    /// The part of the requested amount that the staker does not receive.
    pub penalty: u64,
    /// Burned from the pool's custody; the rest of the penalty stays there.
    pub burned: u64,
}

/// `x` can be held in an `i64`.
pub open spec fn fits_i64(x: int) -> bool {
    i64::MIN <= x <= i64::MAX
}

/// `x` can be held in a `u64`.
pub open spec fn fits_u64(x: int) -> bool {
    0 <= x <= u64::MAX
}

/// Seconds from the account's last stake to `now`.
pub open spec fn elapsed(account: StakeAccount, now: i64) -> int {
    now - account.last_staked_timestamp
}

/// The pool's custody after `outflow` leaves it would not cover the pool's
/// total once `released` is taken off that total.
pub open spec fn custody_short(pool: StakingPool, pool_balance: u64, released: int, outflow: int) -> bool {
    pool_balance - outflow < pool.total_staked - released
}

/// The pool record with `delta` added to its total.
pub open spec fn pool_moved(pool: StakingPool, delta: int) -> StakingPool {
    StakingPool {
        reward_rate: pool.reward_rate,
        lock_duration: pool.lock_duration,
        total_staked: (pool.total_staked + delta) as u64,
    }
}

/// The bonus paid to a referrer: 5% of `amount`, rounded down.
pub open spec fn referral_bonus_of(amount: u64, has_referrer: bool) -> int {
    if has_referrer {
        amount as int / 20
    } else {
        0
    }
}

/// Why a stake of `amount` is refused, if it is.
pub open spec fn stake_error(
    account: StakeAccount,
    pool: StakingPool,
    amount: u64,
    has_referrer: bool,
    now: i64,
    staker_balance: u64,
    pool_balance: u64,
) -> Option<CoreError> {
    if amount == 0 {
        Some(CoreError::InvalidAmount)
    } else if staker_balance < amount {
        Some(CoreError::InsufficientFunds)
    } else if !fits_i64(elapsed(account, now)) || !fits_u64(account.total_staked + amount)
        || !fits_u64(
            account.reward_accumulated + reward_of(amount, elapsed(account, now) as i64),
        ) || !fits_u64(pool.total_staked + amount) {
        Some(CoreError::ArithmeticOverflow)
    } else if has_referrer && pool_balance - pool.total_staked < referral_bonus_of(
        amount,
        has_referrer,
    ) {
        Some(CoreError::InsufficientFunds)
    } else {
        None
    }
}

/// The account after an accepted stake of `amount` at `now`.
pub open spec fn staked_account(account: StakeAccount, amount: u64, now: i64) -> StakeAccount {
    StakeAccount {
        total_staked: (account.total_staked + amount) as u64,
        reward_accumulated: (account.reward_accumulated + reward_of(
            amount,
            elapsed(account, now) as i64,
        )) as u64,
        last_staked_timestamp: now,
        referrer: account.referrer,
        bonus_paid: true,
    }
}

/// What moves on an accepted stake. The airdrop comes on the account's first
/// accepted stake, the one that finds its bonus not yet paid.
pub open spec fn stake_receipt(account: StakeAccount, amount: u64, has_referrer: bool) -> StakeReceipt {
    StakeReceipt {
        deposited: amount,
        referral_bonus: referral_bonus_of(amount, has_referrer) as u64,
        airdrop: if !account.bonus_paid {
            FIRST_STAKE_BONUS
        } else {
            0
        },
    }
}

/// A fresh pool with the given parameters and nothing staked.
pub fn initialize_staking_pool(reward_rate: u64, lock_duration: i64) -> (pool: StakingPool)
    ensures
        pool == (StakingPool { reward_rate, lock_duration, total_staked: 0 }),
{
    StakingPool { reward_rate, lock_duration, total_staked: 0 }
}

/// A fresh stake account, its clock started at `now`.
pub fn initialize_stake_account(now: i64) -> (account: StakeAccount)
    ensures
        account == (StakeAccount {
            total_staked: 0,
            reward_accumulated: 0,
            last_staked_timestamp: now,
            referrer: None,
            bonus_paid: false,
        }),
{
    StakeAccount {
        total_staked: 0,
        reward_accumulated: 0,
        last_staked_timestamp: now,
        referrer: None,
        bonus_paid: false,
    }
}

/// Stakes `amount` from a staker whose token balance is `staker_balance`
/// into a pool whose custody holds `pool_balance`. `referrer` is the
/// referrer's account where one was supplied; it is paid 5% of `amount` from
/// the pool. A stake of nothing is refused. Either both records are updated
/// and the receipt returned, or neither changes and the error is returned.
pub fn stake_tokens(
    account: &mut StakeAccount,
    pool: &mut StakingPool,
    amount: u64,
    referrer: Option<AccountId>,
    now: i64,
    staker_balance: u64,
    pool_balance: u64,
) -> (r: Result<StakeReceipt, CoreError>)
    ensures
        match r {
            Ok(receipt) => {
                &&& stake_error(
                    *old(account),
                    *old(pool),
                    amount,
                    referrer is Some,
                    now,
                    staker_balance,
                    pool_balance,
                ) is None
                &&& *final(account) == staked_account(*old(account), amount, now)
                &&& *final(pool) == pool_moved(*old(pool), amount as int)
                &&& receipt == stake_receipt(*old(account), amount, referrer is Some)
            },
            Err(e) => {
                &&& stake_error(
                    *old(account),
                    *old(pool),
                    amount,
                    referrer is Some,
                    now,
                    staker_balance,
                    pool_balance,
                ) == Some(e)
                &&& *final(account) == *old(account)
                &&& *final(pool) == *old(pool)
            },
        },
{
    if amount == 0 {
        return Err(CoreError::InvalidAmount);
    }
    if staker_balance < amount {
        return Err(CoreError::InsufficientFunds);
    }
    let duration: i64 = match now.checked_sub(account.last_staked_timestamp) {
        Some(d) => d,
        None => return Err(CoreError::ArithmeticOverflow),
    };
    let new_total: u64 = match account.total_staked.checked_add(amount) {
        Some(t) => t,
        None => return Err(CoreError::ArithmeticOverflow),
    };
    let reward: u64 = calculate_reward(amount, duration);
    let new_reward: u64 = match account.reward_accumulated.checked_add(reward) {
        Some(t) => t,
        None => return Err(CoreError::ArithmeticOverflow),
    };
    let new_pool_total: u64 = match pool.total_staked.checked_add(amount) {
        Some(t) => t,
        None => return Err(CoreError::ArithmeticOverflow),
    };
    let referral_bonus: u64 = match referrer {
        Some(_) => amount / 20,
        None => 0,
    };
    if referrer.is_some() && (pool_balance < pool.total_staked || pool_balance - pool.total_staked
        < referral_bonus) {
        return Err(CoreError::InsufficientFunds);
    }
    let airdrop: u64 = if !account.bonus_paid {
        FIRST_STAKE_BONUS
    } else {
        0
    };
    account.total_staked = new_total;
    account.reward_accumulated = new_reward;
    account.last_staked_timestamp = now;
    account.bonus_paid = true;
    pool.total_staked = new_pool_total;
    Ok(StakeReceipt { deposited: amount, referral_bonus, airdrop })
}

/// The penalty on withdrawing `amount` after `duration` seconds: 20% before
/// the minimum stake duration, nothing from then on.
pub open spec fn withdraw_penalty(amount: u64, duration: int) -> int {
    if duration < MIN_STAKE_DURATION {
        amount as int / 5
    } else {
        0
    }
}

/// What moves on an accepted withdrawal with the given penalty, of which
/// `burned` is burned: the rest of `amount` is paid out.
pub open spec fn withdraw_receipt(amount: u64, penalty: int, burned: int) -> WithdrawReceipt {
    WithdrawReceipt {
        paid_out: (amount - penalty) as u64,
        penalty: penalty as u64,
        burned: burned as u64,
    }
}

/// The account with `amount` taken off its stake.
pub open spec fn account_released(account: StakeAccount, amount: u64) -> StakeAccount {
    StakeAccount { total_staked: (account.total_staked - amount) as u64, ..account }
}

/// Why a withdrawal of `amount` with the given penalty and burn is refused,
/// if it is.
pub open spec fn release_error(
    account: StakeAccount,
    pool: StakingPool,
    amount: u64,
    penalty: int,
    burned: int,
    pool_balance: u64,
) -> Option<CoreError> {
    let receipt = withdraw_receipt(amount, penalty, burned);
    if amount > account.total_staked {
        Some(CoreError::InsufficientStake)
    } else if amount > pool.total_staked {
        Some(CoreError::ArithmeticOverflow)
    } else if custody_short(pool, pool_balance, amount as int, receipt.paid_out + receipt.burned) {
        Some(CoreError::InsufficientFunds)
    } else {
        None
    }
}

/// The contract shared by both withdrawals, given the penalty charged and
/// the part of it burned.
pub open spec fn released_as(
    r: Result<WithdrawReceipt, CoreError>,
    account_before: StakeAccount,
    account_after: StakeAccount,
    pool_before: StakingPool,
    pool_after: StakingPool,
    amount: u64,
    penalty: int,
    burned: int,
    pool_balance: u64,
) -> bool {
    match r {
        Ok(receipt) => {
            &&& release_error(account_before, pool_before, amount, penalty, burned, pool_balance) is None
            &&& account_after == account_released(account_before, amount)
            &&& pool_after == pool_moved(pool_before, -amount)
            &&& receipt == withdraw_receipt(amount, penalty, burned)
        },
        Err(e) => {
            &&& release_error(account_before, pool_before, amount, penalty, burned, pool_balance) == Some(e)
            &&& account_after == account_before
            &&& pool_after == pool_before
        },
    }
}

/// Takes `amount` off the account's stake and the pool's total, checking
/// first that the account holds it and that the pool's custody
/// (`pool_balance`) still covers the pool's total once `paid_out + burned`
/// has left it.
fn release(
    account: &mut StakeAccount,
    pool: &mut StakingPool,
    amount: u64,
    penalty: u64,
    burned: u64,
    pool_balance: u64,
) -> (r: Result<WithdrawReceipt, CoreError>)
    requires
        burned <= penalty <= amount,
    ensures
        released_as(
            r,
            *old(account),
            *final(account),
            *old(pool),
            *final(pool),
            amount,
            penalty as int,
            burned as int,
            pool_balance,
        ),
{
    if amount > account.total_staked {
        return Err(CoreError::InsufficientStake);
    }
    if amount > pool.total_staked {
        return Err(CoreError::ArithmeticOverflow);
    }
    let paid_out: u64 = amount - penalty;
    let outflow: u64 = paid_out + burned;
    if pool_balance < outflow || pool_balance - outflow < pool.total_staked - amount {
        return Err(CoreError::InsufficientFunds);
    }
    account.total_staked = account.total_staked - amount;
    pool.total_staked = pool.total_staked - amount;
    Ok(WithdrawReceipt { paid_out, penalty, burned })
}

/// Withdraws `amount` of the account's stake at `now`. Within the minimum
/// stake duration of the last stake a 20% penalty is kept back, half of it
/// (rounded down) burned and the rest left in the pool. Either both records are updated and
/// the receipt returned, or neither changes and the error is returned.
pub fn withdraw_tokens(
    account: &mut StakeAccount,
    pool: &mut StakingPool,
    amount: u64,
    now: i64,
    pool_balance: u64,
) -> (r: Result<WithdrawReceipt, CoreError>)
    ensures
        released_as(
            r,
            *old(account),
            *final(account),
            *old(pool),
            *final(pool),
            amount,
            withdraw_penalty(amount, elapsed(*old(account), now)),
            withdraw_penalty(amount, elapsed(*old(account), now)) / 2,
            pool_balance,
        ),
{
    let duration: i128 = now as i128 - account.last_staked_timestamp as i128;
    let penalty: u64 = if duration < MIN_STAKE_DURATION as i128 {
        amount / 5
    } else {
        0
    };
    release(account, pool, amount, penalty, penalty / 2, pool_balance)
}

/// Withdraws `amount` of the account's stake at once, whatever the time:
/// half of it (rounded down) is the penalty, burned whole, and the rest is
/// paid out. Either both records are
/// updated and the receipt returned, or neither changes and the error is
/// returned.
pub fn force_withdraw_tokens(
    account: &mut StakeAccount,
    pool: &mut StakingPool,
    amount: u64,
    pool_balance: u64,
) -> (r: Result<WithdrawReceipt, CoreError>)
    ensures
        released_as(
            r,
            *old(account),
            *final(account),
            *old(pool),
            *final(pool),
            amount,
            amount as int / 2,
            amount as int / 2,
            pool_balance,
        ),
{
    let penalty: u64 = amount / 2;
    release(account, pool, amount, penalty, penalty, pool_balance)
}

/// The sum of the stakes recorded in `accounts`.
pub open spec fn sum_staked(accounts: Seq<StakeAccount>) -> int
    decreases accounts.len(),
{
    if accounts.len() == 0 {
        0
    } else {
        sum_staked(accounts.drop_last()) + accounts.last().total_staked
    }
}

/// Replacing one account changes the sum by the change in that account's stake.
pub proof fn lemma_sum_staked_update(accounts: Seq<StakeAccount>, i: int, account: StakeAccount)
    requires
        0 <= i < accounts.len(),
    ensures
        sum_staked(accounts.update(i, account)) == sum_staked(accounts)
            - accounts[i].total_staked + account.total_staked,
    decreases accounts.len(),
{
    let updated = accounts.update(i, account);
    if i == accounts.len() - 1 {
        assert(updated.drop_last() =~= accounts.drop_last());
    } else {
        lemma_sum_staked_update(accounts.drop_last(), i, account);
        assert(updated.drop_last() =~= accounts.drop_last().update(i, account));
    }
}

/// Staking keeps the stakes covered: where the pool's custody and the pool's
/// total are each at least the sum of the accounts' stakes, an accepted stake
/// by any one account moves the sum and the total by the same amount, and
/// leaves both still at least the new sum, the custody counted after the
/// deposit and the referral bonus have moved.
pub proof fn stake_keeps_stakes_covered(
    accounts: Seq<StakeAccount>,
    i: int,
    pool: StakingPool,
    amount: u64,
    has_referrer: bool,
    now: i64,
    staker_balance: u64,
    pool_balance: u64,
)
    requires
        0 <= i < accounts.len(),
        sum_staked(accounts) <= pool.total_staked,
        sum_staked(accounts) <= pool_balance,
        stake_error(accounts[i], pool, amount, has_referrer, now, staker_balance, pool_balance)
            is None,
    ensures
        ({
            let accounts_after = accounts.update(i, staked_account(accounts[i], amount, now));
            let pool_after = pool_moved(pool, amount as int);
            let receipt = stake_receipt(accounts[i], amount, has_referrer);
            &&& sum_staked(accounts_after) - sum_staked(accounts) == pool_after.total_staked
                - pool.total_staked
            &&& sum_staked(accounts_after) <= pool_after.total_staked
            &&& sum_staked(accounts_after) <= pool_balance + receipt.deposited
                - receipt.referral_bonus
        }),
{
    lemma_sum_staked_update(accounts, i, staked_account(accounts[i], amount, now));
}

/// Withdrawing keeps the stakes covered: where the pool's custody and the
/// pool's total are each at least the sum of the accounts' stakes, an
/// accepted withdrawal (with any penalty and burn within the amount) by any
/// one account moves the sum and the total by the same amount, and leaves
/// both still at least the new sum, the custody counted after the payout and
/// the burn have left it.
pub proof fn release_keeps_stakes_covered(
    accounts: Seq<StakeAccount>,
    i: int,
    pool: StakingPool,
    amount: u64,
    penalty: int,
    burned: int,
    pool_balance: u64,
)
    requires
        0 <= i < accounts.len(),
        0 <= burned <= penalty <= amount,
        sum_staked(accounts) <= pool.total_staked,
        sum_staked(accounts) <= pool_balance,
        release_error(accounts[i], pool, amount, penalty, burned, pool_balance) is None,
    ensures
        ({
            let accounts_after = accounts.update(i, account_released(accounts[i], amount));
            let pool_after = pool_moved(pool, -amount);
            let receipt = withdraw_receipt(amount, penalty, burned);
            &&& sum_staked(accounts_after) - sum_staked(accounts) == pool_after.total_staked
                - pool.total_staked
            &&& sum_staked(accounts_after) <= pool_after.total_staked
            &&& sum_staked(accounts_after) <= pool_balance - receipt.paid_out - receipt.burned
        }),
{
    lemma_sum_staked_update(accounts, i, account_released(accounts[i], amount));
}

/// A withdrawal of more than the account has staked is refused with
/// `InsufficientStake`, whatever the penalty, so no stake goes below zero.
pub proof fn over_withdrawal_refused(
    account: StakeAccount,
    pool: StakingPool,
    amount: u64,
    penalty: int,
    burned: int,
    pool_balance: u64,
)
    requires
        amount > account.total_staked,
    ensures
        release_error(account, pool, amount, penalty, burned, pool_balance) == Some(
            CoreError::InsufficientStake,
        ),
{
}

/// A forced withdrawal burns exactly half the amount (rounded down) and pays
/// out the rest; it does not depend on the time.
pub proof fn force_withdraw_burns_half(amount: u64)
    ensures
        withdraw_receipt(amount, amount as int / 2, amount as int / 2).burned == amount / 2,
        withdraw_receipt(amount, amount as int / 2, amount as int / 2).paid_out + amount / 2
            == amount,
{
}

/// The account after a run of changes made one by one: for each step
/// `(is_stake, amount, now)`, a stake of `amount` at `now`, or else a
/// withdrawal (of either kind) of `amount`.
pub open spec fn account_after_steps(account: StakeAccount, steps: Seq<(bool, u64, i64)>) -> StakeAccount
    decreases steps.len(),
{
    if steps.len() == 0 {
        account
    } else {
        let before = account_after_steps(account, steps.drop_last());
        let step = steps.last();
        if step.0 {
            staked_account(before, step.1, step.2)
        } else {
            account_released(before, step.1)
        }
    }
}

/// Once paid, the bonus stays paid whatever stakes and withdrawals follow.
pub proof fn lemma_bonus_stays_paid(account: StakeAccount, steps: Seq<(bool, u64, i64)>)
    requires
        account.bonus_paid,
    ensures
        account_after_steps(account, steps).bonus_paid,
    decreases steps.len(),
{
    if steps.len() > 0 {
        lemma_bonus_stays_paid(account, steps.drop_last());
    }
}

/// The first stake of an account that has not had the bonus earns it, and no
/// later stake does, whatever stakes and withdrawals come in between (a
/// withdrawal of the whole stake included).
pub proof fn first_stake_bonus_once(
    account: StakeAccount,
    first: u64,
    first_referred: bool,
    first_time: i64,
    steps: Seq<(bool, u64, i64)>,
    later: u64,
    later_referred: bool,
)
    requires
        !account.bonus_paid,
    ensures
        stake_receipt(account, first, first_referred).airdrop == FIRST_STAKE_BONUS,
        stake_receipt(
            account_after_steps(staked_account(account, first, first_time), steps),
            later,
            later_referred,
        ).airdrop == 0,
{
    lemma_bonus_stays_paid(staked_account(account, first, first_time), steps);
}

} // verus!
