use vstd::prelude::*;

use crate::reward::is_decimal_digit;

verus! {

/// Base units in one whole token (10^24).
pub const BASE_UNITS_PER_TOKEN: u128 = 1_000_000_000_000_000_000_000_000;

/// Base units in one hundredth of a token (10^22).
pub const BASE_UNITS_PER_HUNDREDTH: u128 = 10_000_000_000_000_000_000_000;

/// Half a hundredth of a token, in base units: from here on a remainder rounds up.
pub const HALF_HUNDREDTH: u128 = 5_000_000_000_000_000_000_000;

/// The character of a decimal digit.
pub open spec fn digit_char(d: nat) -> char {
    (d + 48) as char
}

/// The decimal digits of `n`, most significant first, with no leading zero.
pub open spec fn decimal_text(n: nat) -> Seq<char>
    decreases n,
{
    if n < 10 {
        seq![digit_char(n)]
    } else {
        decimal_text(n / 10).push(digit_char(n % 10))
    }
}

/// An amount of base units in whole hundredths of a token, rounded to the
/// nearest, a half rounding up.
pub open spec fn hundredths_of(x: u128) -> nat {
    let whole = x as nat / BASE_UNITS_PER_HUNDREDTH as nat;
    if x as nat % BASE_UNITS_PER_HUNDREDTH as nat >= HALF_HUNDREDTH as nat {
        whole + 1
    } else {
        whole
    }
}

/// An amount of base units written in whole tokens with two decimals.
pub open spec fn amount_text(x: u128) -> Seq<char> {
    let h = hundredths_of(x);
    decimal_text(h / 100) + seq!['.', digit_char((h % 100) / 10), digit_char(h % 10)]
}

fn digit_char_exec(d: u128) -> (c: char)
    requires
        d < 10,
    ensures
        c == digit_char(d as nat),
        is_decimal_digit(c),
{
    let b: u8 = d as u8;
    (b + 48u8) as char
}

fn push_decimal(out: &mut Vec<char>, n: u128)
    ensures
        final(out)@ == old(out)@ + decimal_text(n as nat),
    decreases n,
{
    if n >= 10 {
        push_decimal(out, n / 10);
    }
    let c = digit_char_exec(n % 10);
    out.push(c);
    assert(out@ =~= old(out)@ + decimal_text(n as nat));
}

fn push_amount(out: &mut Vec<char>, x: u128)
    ensures
        final(out)@ == old(out)@ + amount_text(x),
{
    let whole = x / BASE_UNITS_PER_HUNDREDTH;
    let h: u128 = if x % BASE_UNITS_PER_HUNDREDTH >= HALF_HUNDREDTH {
        whole + 1
    } else {
        whole
    };
    assert(h == hundredths_of(x));
    push_decimal(out, h / 100);
    out.push('.');
    let tenths = digit_char_exec((h % 100) / 10);
    out.push(tenths);
    let last = digit_char_exec(h % 10);
    out.push(last);
    assert(out@ =~= old(out)@ + amount_text(x));
}

/// Relies on `String`'s `FromIterator<&char>`: the string holds the characters
/// in the order given.
#[verifier::external_body]
fn string_of(chars: &Vec<char>) -> (r: String)
    ensures
        r@ == chars@,
{
    chars.iter().collect()
}

/// Writes an amount of base units in whole tokens with two decimals, rounded to
/// the nearest hundredth.
pub fn format_amount(x: u128) -> (r: String)
    ensures
        r@ == amount_text(x),
{
    let mut out: Vec<char> = Vec::new();
    push_amount(&mut out, x);
    assert(out@ =~= amount_text(x));
    string_of(&out)
}

/// A signed difference of two rewards: `+` and the amount by which `current`
/// exceeds `prev`, or else `-` and the amount by which it falls short, which is
/// `-0.00` when they are equal.
pub open spec fn reward_diff_text_of(current: u128, prev: u128) -> Seq<char> {
    if current > prev {
        seq!['+'] + amount_text((current - prev) as u128)
    } else {
        seq!['-'] + amount_text((prev - current) as u128)
    }
}

/// Writes the change from `prev_reward` to `current_reward`, with its sign.
pub fn reward_diff_text(current_reward: u128, prev_reward: u128) -> (r: String)
    ensures
        r@ == reward_diff_text_of(current_reward, prev_reward),
        r@.len() > 0,
        (r@[0] == '+') == (current_reward > prev_reward),
        (r@[0] == '-') == (current_reward <= prev_reward),
{
    let mut out: Vec<char> = Vec::new();
    if current_reward > prev_reward {
        out.push('+');
        push_amount(&mut out, current_reward - prev_reward);
    } else {
        out.push('-');
        push_amount(&mut out, prev_reward - current_reward);
    }
    assert(out@ =~= reward_diff_text_of(current_reward, prev_reward));
    string_of(&out)
}

/// Writes a reward in whole tokens with two decimals.
pub fn current_reward_text(current_reward: u128) -> (r: String)
    ensures
        r@ == amount_text(current_reward),
{
    format_amount(current_reward)
}

} // verus!
