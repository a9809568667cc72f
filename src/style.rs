use vstd::prelude::*;

use crate::amount::{
    amount_text, current_reward_text, decimal_text, digit_char, reward_diff_text,
    reward_diff_text_of,
};

verus! {

/// The text holds no escape character, so no terminal control sequence.
pub open spec fn has_no_escape(s: Seq<char>) -> bool {
    forall|i: int| 0 <= i < s.len() ==> s[i] != '\x1b'
}

/// The text between an ANSI control sequence that sets the foreground colour
/// with the given code and the one that resets every attribute.
pub open spec fn styled(code: Seq<char>, s: Seq<char>) -> Seq<char> {
    seq!['\x1b', '['] + code + seq!['m'] + s + seq!['\x1b', '[', '0', 'm']
}

/// The ANSI code of the blue foreground.
pub open spec fn blue_code() -> Seq<char> {
    seq!['3', '4']
}

/// The ANSI code of the red foreground.
pub open spec fn red_code() -> Seq<char> {
    seq!['3', '1']
}

/// The ANSI code of the green foreground.
pub open spec fn green_code() -> Seq<char> {
    seq!['3', '2']
}

/// Relies on colored's `Colorize::blue` and the `Display` of `ColoredString`:
/// where colouring is switched off (by the environment, or because standard
/// output is no terminal) the text comes out as it is, else wrapped in the
/// sequences of the blue foreground and of the reset. Text without an escape
/// character holds no reset sequence that colored would rewrite.
#[verifier::external_body]
fn blue(s: &str) -> (r: String)
    requires
        has_no_escape(s@),
    ensures
        r@ == s@ || r@ == styled(blue_code(), s@),
{
    colored::Colorize::blue(s).to_string()
}

/// Relies on colored's `Colorize::red` and the `Display` of `ColoredString`,
/// as `blue` does, with the red foreground.
#[verifier::external_body]
fn red(s: &str) -> (r: String)
    requires
        has_no_escape(s@),
    ensures
        r@ == s@ || r@ == styled(red_code(), s@),
{
    colored::Colorize::red(s).to_string()
}

/// Relies on colored's `Colorize::green` and the `Display` of `ColoredString`,
/// as `blue` does, with the green foreground.
#[verifier::external_body]
fn green(s: &str) -> (r: String)
    requires
        has_no_escape(s@),
    ensures
        r@ == s@ || r@ == styled(green_code(), s@),
{
    colored::Colorize::green(s).to_string()
}

proof fn lemma_decimal_text_has_no_escape(n: nat)
    ensures
        has_no_escape(decimal_text(n)),
    decreases n,
{
    if n >= 10 {
        lemma_decimal_text_has_no_escape(n / 10);
        assert(digit_char(n % 10) != '\x1b');
    } else {
        assert(digit_char(n) != '\x1b');
    }
}

proof fn lemma_amount_text_has_no_escape(x: u128)
    ensures
        has_no_escape(amount_text(x)),
{
    let h = crate::amount::hundredths_of(x);
    lemma_decimal_text_has_no_escape(h / 100);
    assert(digit_char((h % 100) / 10) != '\x1b');
    assert(digit_char(h % 10) != '\x1b');
}

/// The change from `prev_reward` to `current_reward` with its sign, blue where
/// the reward grew and red where it did not, where colouring is on.
pub fn reward_diff(current_reward: u128, prev_reward: u128) -> (r: String)
    ensures
        current_reward > prev_reward ==> (r@ == reward_diff_text_of(current_reward, prev_reward)
            || r@ == styled(blue_code(), reward_diff_text_of(current_reward, prev_reward))),
        current_reward <= prev_reward ==> (r@ == reward_diff_text_of(current_reward, prev_reward)
            || r@ == styled(red_code(), reward_diff_text_of(current_reward, prev_reward))),
{
    let text = reward_diff_text(current_reward, prev_reward);
    proof {
        if current_reward > prev_reward {
            lemma_amount_text_has_no_escape((current_reward - prev_reward) as u128);
        } else {
            lemma_amount_text_has_no_escape((prev_reward - current_reward) as u128);
        }
        assert(has_no_escape(text@));
    }
    if current_reward > prev_reward {
        blue(text.as_str())
    } else {
        red(text.as_str())
    }
}

/// A reward in whole tokens with two decimals, green where colouring is on.
pub fn current_reward(reward: u128) -> (r: String)
    ensures
        r@ == amount_text(reward) || r@ == styled(green_code(), amount_text(reward)),
{
    let text = current_reward_text(reward);
    proof {
        lemma_amount_text_has_no_escape(reward);
    }
    green(text.as_str())
}

} // verus!
