use fresa_coin::account::AccountId;
use fresa_coin::error::CoreError;
use fresa_coin::staking::{
    force_withdraw_tokens, initialize_stake_account, initialize_staking_pool, stake_tokens,
    withdraw_tokens, StakeAccount, StakeReceipt, StakingPool, WithdrawReceipt,
    FIRST_STAKE_BONUS,
};

const START: i64 = 1_700_000_000;

fn referrer() -> AccountId {
    AccountId { bytes: [7u8; 32] }
}

fn staked(amount: u64) -> (StakeAccount, StakingPool) {
    let mut account = initialize_stake_account(START);
    let mut pool = initialize_staking_pool(5, 604_800);
    stake_tokens(&mut account, &mut pool, amount, None, START, amount, 0).unwrap();
    (account, pool)
}

#[test]
fn fresh_records_are_empty() {
    let pool = initialize_staking_pool(5, 86_400);
    assert_eq!(pool, StakingPool { reward_rate: 5, lock_duration: 86_400, total_staked: 0 });
    let account = initialize_stake_account(START);
    assert_eq!(account.total_staked, 0);
    assert_eq!(account.reward_accumulated, 0);
    assert_eq!(account.last_staked_timestamp, START);
    assert_eq!(account.referrer, None);
    assert!(!account.bonus_paid);
}

#[test]
fn first_stake_mints_the_bonus_once() {
    let mut account = initialize_stake_account(START);
    let mut pool = initialize_staking_pool(5, 604_800);
    let first = stake_tokens(&mut account, &mut pool, 1, None, START, 10, 0).unwrap();
    assert_eq!(first, StakeReceipt { deposited: 1, referral_bonus: 0, airdrop: FIRST_STAKE_BONUS });
    assert_eq!(FIRST_STAKE_BONUS, 100_000_000);
    let second = stake_tokens(&mut account, &mut pool, 1, None, START + 5, 10, 1).unwrap();
    assert_eq!(second.airdrop, 0);
    let third = stake_tokens(&mut account, &mut pool, 500, None, START + 9, 500, 2).unwrap();
    assert_eq!(third.airdrop, 0);
    assert_eq!(account.total_staked, 502);
    assert_eq!(pool.total_staked, 502);
}

#[test]
fn stake_updates_account_and_pool() {
    let mut account = initialize_stake_account(START);
    let mut pool = initialize_staking_pool(5, 604_800);
    stake_tokens(&mut account, &mut pool, 2_000_000_000, None, START + 100, 2_000_000_000, 0)
        .unwrap();
    assert_eq!(account.total_staked, 2_000_000_000);
    assert_eq!(account.reward_accumulated, 240_000_000);
    assert_eq!(account.last_staked_timestamp, START + 100);
    assert_eq!(pool.total_staked, 2_000_000_000);
    // A month and a bit later the reward of the new stake is doubled.
    let later = START + 100 + 2_592_001;
    stake_tokens(&mut account, &mut pool, 1_000_000, None, later, 1_000_000, 2_000_000_000)
        .unwrap();
    assert_eq!(account.total_staked, 2_001_000_000);
    assert_eq!(account.reward_accumulated, 240_000_000 + 200_000);
    assert_eq!(account.last_staked_timestamp, later);
    assert_eq!(pool.total_staked, 2_001_000_000);
}

#[test]
fn referrer_is_paid_five_percent_from_the_pool() {
    let mut account = initialize_stake_account(START);
    let mut pool = initialize_staking_pool(5, 604_800);
    let receipt =
        stake_tokens(&mut account, &mut pool, 1_000, Some(referrer()), START, 1_000, 50).unwrap();
    assert_eq!(receipt, StakeReceipt { deposited: 1_000, referral_bonus: 50, airdrop: FIRST_STAKE_BONUS });
    assert_eq!(account.total_staked, 1_000);
}

#[test]
fn referral_that_would_leave_stakes_uncovered_is_refused() {
    let (mut account, mut pool) = staked(1_000);
    let before = (account, pool);
    // The pool holds exactly what is staked: nothing spare for a bonus.
    let r = stake_tokens(&mut account, &mut pool, 1_000, Some(referrer()), START, 1_000, 1_000);
    assert_eq!(r, Err(CoreError::InsufficientFunds));
    assert_eq!((account, pool), before);
}

#[test]
fn stake_beyond_balance_is_refused() {
    let mut account = initialize_stake_account(START);
    let mut pool = initialize_staking_pool(5, 604_800);
    let r = stake_tokens(&mut account, &mut pool, 101, None, START, 100, 0);
    assert_eq!(r, Err(CoreError::InsufficientFunds));
    assert_eq!(account, initialize_stake_account(START));
    assert_eq!(pool.total_staked, 0);
}

#[test]
fn stake_that_overflows_is_refused() {
    let (mut account, mut pool) = staked(u64::MAX);
    let before = (account, pool);
    let r = stake_tokens(&mut account, &mut pool, 1, None, START, 1, u64::MAX);
    assert_eq!(r, Err(CoreError::ArithmeticOverflow));
    assert_eq!((account, pool), before);
}

#[test]
fn stake_with_clock_overflow_is_refused() {
    let mut account = initialize_stake_account(i64::MIN);
    let mut pool = initialize_staking_pool(5, 604_800);
    let r = stake_tokens(&mut account, &mut pool, 1, None, i64::MAX, 1, 0);
    assert_eq!(r, Err(CoreError::ArithmeticOverflow));
    assert_eq!(account, initialize_stake_account(i64::MIN));
}

#[test]
fn withdraw_after_a_week_has_no_penalty() {
    let (mut account, mut pool) = staked(1_000);
    let r = withdraw_tokens(&mut account, &mut pool, 1_000, START + 604_800, 1_000).unwrap();
    assert_eq!(r, WithdrawReceipt { paid_out: 1_000, penalty: 0, burned: 0 });
    assert_eq!(account.total_staked, 0);
    assert_eq!(pool.total_staked, 0);
}

#[test]
fn withdraw_within_a_week_pays_twenty_percent() {
    let (mut account, mut pool) = staked(1_000);
    let r = withdraw_tokens(&mut account, &mut pool, 1_000, START + 604_799, 1_000).unwrap();
    assert_eq!(r, WithdrawReceipt { paid_out: 800, penalty: 200, burned: 100 });
    assert_eq!(account.total_staked, 0);
}

#[test]
fn withdraw_odd_penalty_burns_the_lower_half() {
    let (mut account, mut pool) = staked(1_000);
    let r = withdraw_tokens(&mut account, &mut pool, 15, START, 1_000).unwrap();
    assert_eq!(r, WithdrawReceipt { paid_out: 12, penalty: 3, burned: 1 });
    assert_eq!(account.total_staked, 985);
    assert_eq!(pool.total_staked, 985);
}

#[test]
fn withdraw_more_than_staked_is_refused() {
    let (mut account, mut pool) = staked(1_000);
    let before = (account, pool);
    let r = withdraw_tokens(&mut account, &mut pool, 1_001, START + 700_000, 5_000);
    assert_eq!(r, Err(CoreError::InsufficientStake));
    assert_eq!((account, pool), before);
}

#[test]
fn withdraw_from_an_underfunded_pool_is_refused() {
    let (mut account, mut pool) = staked(1_000);
    let before = (account, pool);
    let r = withdraw_tokens(&mut account, &mut pool, 500, START + 700_000, 999);
    assert_eq!(r, Err(CoreError::InsufficientFunds));
    assert_eq!((account, pool), before);
}

#[test]
fn withdraw_beyond_the_pool_total_is_refused() {
    let (mut account, _) = staked(1_000);
    let mut pool = initialize_staking_pool(5, 604_800);
    let r = withdraw_tokens(&mut account, &mut pool, 500, START + 700_000, 5_000);
    assert_eq!(r, Err(CoreError::ArithmeticOverflow));
    assert_eq!(account.total_staked, 1_000);
}

#[test]
fn force_withdraw_burns_half_whatever_the_time() {
    let (mut account, mut pool) = staked(1_000);
    let r = force_withdraw_tokens(&mut account, &mut pool, 101, 1_000).unwrap();
    assert_eq!(r, WithdrawReceipt { paid_out: 51, penalty: 50, burned: 50 });
    assert_eq!(account.total_staked, 899);
    assert_eq!(pool.total_staked, 899);
    let r = force_withdraw_tokens(&mut account, &mut pool, 800, 899).unwrap();
    assert_eq!(r, WithdrawReceipt { paid_out: 400, penalty: 400, burned: 400 });
    assert_eq!(account.total_staked, 99);
}

#[test]
fn force_withdraw_more_than_staked_is_refused() {
    let (mut account, mut pool) = staked(10);
    let before = (account, pool);
    let r = force_withdraw_tokens(&mut account, &mut pool, 11, 100);
    assert_eq!(r, Err(CoreError::InsufficientStake));
    assert_eq!((account, pool), before);
}

#[test]
fn custody_keeps_covering_the_sum_of_stakes() {
    let mut pool = initialize_staking_pool(5, 604_800);
    let mut alice = initialize_stake_account(START);
    let mut bob = initialize_stake_account(START);
    let mut custody: u64 = 500;
    let r = stake_tokens(&mut alice, &mut pool, 4_000, None, START, 4_000, custody).unwrap();
    custody = custody + r.deposited - r.referral_bonus;
    let r = stake_tokens(&mut bob, &mut pool, 2_000, Some(referrer()), START, 2_000, custody)
        .unwrap();
    custody = custody + r.deposited - r.referral_bonus;
    assert_eq!(custody, 6_400);
    assert!(alice.total_staked + bob.total_staked <= custody);
    let r = withdraw_tokens(&mut alice, &mut pool, 1_000, START + 10, custody).unwrap();
    custody = custody - r.paid_out - r.burned;
    let r = force_withdraw_tokens(&mut bob, &mut pool, 1_000, custody).unwrap();
    custody = custody - r.paid_out - r.burned;
    assert_eq!(pool.total_staked, alice.total_staked + bob.total_staked);
    assert!(pool.total_staked <= custody);
    assert_eq!(custody, 4_500);
}

#[test]
fn bonus_is_not_paid_again_after_a_full_withdrawal() {
    let mut account = initialize_stake_account(START);
    let mut pool = initialize_staking_pool(5, 604_800);
    let first = stake_tokens(&mut account, &mut pool, 1, None, START, 1, 0).unwrap();
    assert_eq!(first.airdrop, FIRST_STAKE_BONUS);
    assert!(account.bonus_paid);
    let out = withdraw_tokens(&mut account, &mut pool, 1, START, 1).unwrap();
    assert_eq!(out, WithdrawReceipt { paid_out: 1, penalty: 0, burned: 0 });
    assert_eq!(account.total_staked, 0);
    assert!(account.bonus_paid);
    let again = stake_tokens(&mut account, &mut pool, 1, None, START + 1, 1, 0).unwrap();
    assert_eq!(again.airdrop, 0);
    force_withdraw_tokens(&mut account, &mut pool, 1, 1).unwrap();
    let third = stake_tokens(&mut account, &mut pool, 7, None, START + 2, 7, 0).unwrap();
    assert_eq!(third.airdrop, 0);
}

#[test]
fn zero_stake_is_refused() {
    let mut account = initialize_stake_account(START);
    let mut pool = initialize_staking_pool(5, 604_800);
    let r = stake_tokens(&mut account, &mut pool, 0, Some(referrer()), START, 100, 100);
    assert_eq!(r, Err(CoreError::InvalidAmount));
    assert_eq!(account, initialize_stake_account(START));
    assert_eq!(pool, initialize_staking_pool(5, 604_800));
}
