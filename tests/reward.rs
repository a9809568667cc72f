use reward_report::collect::account_balances;
use reward_report::reward::{compute_reward, parse_locked_amount, AccountInPool};

#[test]
fn reward_excludes_native_balance_without_lockup() {
    assert_eq!(compute_reward(100, 50, 30, 0), 150);
}

#[test]
fn reward_counts_native_balance_with_lockup() {
    assert_eq!(compute_reward(100, 50, 30, 120), 60);
}

#[test]
fn reward_clamps_at_zero() {
    assert_eq!(compute_reward(10, 0, 0, 50), 0);
}

#[test]
fn reward_clamps_at_the_largest_value() {
    assert_eq!(compute_reward(u128::MAX, u128::MAX, 0, 0), u128::MAX);
    assert_eq!(compute_reward(u128::MAX, 1, u128::MAX, 1), u128::MAX - 1);
    assert_eq!(compute_reward(u128::MAX, u128::MAX, u128::MAX, u128::MAX), 0);
    assert_eq!(compute_reward(0, 0, u128::MAX, u128::MAX), 0);
    assert_eq!(compute_reward(0, 0, 0, 0), 0);
}

#[test]
fn reward_of_all_zero_but_native() {
    assert_eq!(compute_reward(0, 0, 30, 0), 0);
    assert_eq!(compute_reward(0, 0, 30, 10), 20);
}

#[test]
fn unparseable_locked_amount_is_zero() {
    assert_eq!(parse_locked_amount("abc"), 0);
    assert_eq!(parse_locked_amount(""), 0);
    assert_eq!(parse_locked_amount("+"), 0);
    assert_eq!(parse_locked_amount("-5"), 0);
    assert_eq!(parse_locked_amount(" 5"), 0);
    assert_eq!(parse_locked_amount("1_000"), 0);
    assert_eq!(parse_locked_amount("340282366920938463463374607431768211456"), 0);
}

#[test]
fn parseable_locked_amount_is_read() {
    assert_eq!(parse_locked_amount("120"), 120);
    assert_eq!(parse_locked_amount("+7"), 7);
    assert_eq!(parse_locked_amount("007"), 7);
    assert_eq!(parse_locked_amount("0"), 0);
    assert_eq!(parse_locked_amount("340282366920938463463374607431768211455"), u128::MAX);
}

#[test]
fn balances_carry_the_reward() {
    let pool = AccountInPool { staked_balance: 100, unstaked_balance: 50 };
    assert_eq!(pool.get_staked_balance(), 100);
    assert_eq!(pool.get_unstaked_balance(), 50);
    let b = account_balances(pool, 30, 25, 120);
    assert_eq!(b.account_in_pool, pool);
    assert_eq!(b.native_balance, 30);
    assert_eq!(b.liquid_balance, 25);
    assert_eq!(b.reward, 60);
}
