use reward_report::amount::{
    current_reward_text, format_amount, reward_diff_text, BASE_UNITS_PER_HUNDREDTH,
    BASE_UNITS_PER_TOKEN, HALF_HUNDREDTH,
};

const TOKEN: u128 = 1_000_000_000_000_000_000_000_000;

#[test]
fn scale_constants() {
    assert_eq!(BASE_UNITS_PER_TOKEN, TOKEN);
    assert_eq!(BASE_UNITS_PER_HUNDREDTH * 100, TOKEN);
    assert_eq!(HALF_HUNDREDTH * 2, BASE_UNITS_PER_HUNDREDTH);
}

#[test]
fn zero_reward_reads_zero() {
    assert_eq!(current_reward_text(0), "0.00");
    assert_eq!(format_amount(0), "0.00");
}

#[test]
fn whole_and_fractional_amounts() {
    assert_eq!(format_amount(TOKEN), "1.00");
    assert_eq!(format_amount(3 * TOKEN / 2), "1.50");
    assert_eq!(format_amount(12 * TOKEN + 34 * (TOKEN / 100)), "12.34");
    assert_eq!(format_amount(1234 * TOKEN), "1234.00");
    assert_eq!(format_amount(TOKEN / 100 * 7), "0.07");
}

#[test]
fn amounts_round_to_the_nearest_hundredth() {
    assert_eq!(format_amount(HALF_HUNDREDTH - 1), "0.00");
    assert_eq!(format_amount(HALF_HUNDREDTH), "0.01");
    assert_eq!(format_amount(TOKEN - HALF_HUNDREDTH), "1.00");
    assert_eq!(format_amount(TOKEN - HALF_HUNDREDTH - 1), "0.99");
}

#[test]
fn largest_amount() {
    assert_eq!(format_amount(u128::MAX), "340282366920938.46");
}

#[test]
fn growth_has_a_plus_sign() {
    assert_eq!(reward_diff_text(2 * TOKEN, TOKEN), "+1.00");
    assert_eq!(reward_diff_text(1, 0), "+0.00");
    assert_eq!(reward_diff_text(u128::MAX, 0), "+340282366920938.46");
}

#[test]
fn no_growth_has_a_minus_sign() {
    assert_eq!(reward_diff_text(TOKEN, 3 * TOKEN), "-2.00");
    assert_eq!(reward_diff_text(0, u128::MAX), "-340282366920938.46");
}

#[test]
fn equal_rewards_read_as_minus_zero() {
    assert_eq!(reward_diff_text(0, 0), "-0.00");
    assert_eq!(reward_diff_text(5 * TOKEN, 5 * TOKEN), "-0.00");
}
