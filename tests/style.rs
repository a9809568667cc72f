use reward_report::style::{current_reward, reward_diff};

const TOKEN: u128 = 1_000_000_000_000_000_000_000_000;

#[test]
fn coloured_growth_is_blue() {
    colored::control::set_override(true);
    assert_eq!(reward_diff(2 * TOKEN, TOKEN), "\x1b[34m+1.00\x1b[0m");
}

#[test]
fn coloured_decline_is_red() {
    colored::control::set_override(true);
    assert_eq!(reward_diff(TOKEN, TOKEN), "\x1b[31m-0.00\x1b[0m");
    assert_eq!(reward_diff(0, TOKEN), "\x1b[31m-1.00\x1b[0m");
}

#[test]
fn coloured_current_reward_is_green() {
    colored::control::set_override(true);
    assert_eq!(current_reward(0), "\x1b[32m0.00\x1b[0m");
    assert_eq!(current_reward(TOKEN / 2), "\x1b[32m0.50\x1b[0m");
}
