use vstd::prelude::*;

verus! {

/// The staking-pool state of an account at one block.
#[derive(Clone, Copy, Debug, PartialEq, Eq, Structural)]
pub struct AccountInPool {
    pub staked_balance: u128,
    pub unstaked_balance: u128,
}

impl AccountInPool {
    pub fn get_staked_balance(&self) -> (r: u128)
        ensures
            r == self.staked_balance,
    {
        self.staked_balance
    }

    pub fn get_unstaked_balance(&self) -> (r: u128)
        ensures
            r == self.unstaked_balance,
    {
        self.unstaked_balance
    }
}

/// What is known of an account at one block.
#[derive(Clone, Copy, Debug, PartialEq, Eq, Structural)]
pub struct AccountBalancesAtBlock {
    pub account_in_pool: AccountInPool,
    pub native_balance: u128,
    pub liquid_balance: u128,
    pub reward: u128,
}

/// `a + b`, clamped to the largest `u128`.
pub open spec fn add_clamped(a: int, b: int) -> int {
    if a + b > u128::MAX {
        u128::MAX as int
    } else {
        a + b
    }
}

/// `a - b`, clamped to zero.
pub open spec fn sub_clamped(a: int, b: int) -> int {
    if a - b < 0 {
        0
    } else {
        a - b
    }
}

/// The reward: staked plus unstaked balance, plus the native balance when some
/// amount is still locked, less the locked amount; each step clamped to the
/// range of `u128`.
pub open spec fn reward_of(staked: u128, unstaked: u128, native: u128, locked: u128) -> int {
    let pooled = add_clamped(staked as int, unstaked as int);
    let counted = if locked > 0 {
        add_clamped(pooled, native as int)
    } else {
        pooled
    };
    sub_clamped(counted, locked as int)
}

/// Computes the reward for any four amounts; it never overflows nor goes below
/// zero.
pub fn compute_reward(staked: u128, unstaked: u128, native: u128, locked: u128) -> (r: u128)
    ensures
        r as int == reward_of(staked, unstaked, native, locked),
        0 <= r <= u128::MAX,
{
    staked.saturating_add(unstaked).saturating_add(if locked > 0 {
        native
    } else {
        0
    }).saturating_sub(locked)
}

/// An ASCII decimal digit.
pub open spec fn is_decimal_digit(c: char) -> bool {
    '0' <= c && c <= '9'
}

/// The value of a decimal digit.
pub open spec fn digit_value(c: char) -> nat {
    (c as u32 - '0' as u32) as nat
}

/// The number that a sequence of decimal digits writes, most significant first.
pub open spec fn digits_value(s: Seq<char>) -> nat
    decreases s.len(),
{
    if s.len() == 0 {
        0
    } else {
        digits_value(s.drop_last()) * 10 + digit_value(s.last())
    }
}

/// The text without its leading `+` sign, if it has one.
pub open spec fn unsigned_digits(s: Seq<char>) -> Seq<char> {
    if s.len() > 0 && s[0] == '+' {
        s.drop_first()
    } else {
        s
    }
}

/// The text is an optional `+` followed by one or more decimal digits, and
/// the number they write fits in a `u128`.
pub open spec fn parses_as_u128(s: Seq<char>) -> bool {
    let d = unsigned_digits(s);
    &&& d.len() > 0
    &&& forall|i: int| 0 <= i < d.len() ==> is_decimal_digit(#[trigger] d[i])
    &&& digits_value(d) <= u128::MAX
}

/// The locked amount that a stored text stands for: the number it writes, or
/// zero where it is not a number that fits in a `u128`.
pub open spec fn locked_amount_of(s: Seq<char>) -> u128 {
    if parses_as_u128(s) {
        digits_value(unsigned_digits(s)) as u128
    } else {
        0
    }
}

/// Relies on `<u128 as FromStr>::from_str`, reached through `str::parse`: it
/// accepts an optional `+` followed by one or more ASCII decimal digits whose
/// value fits in a `u128`, returns that value, and rejects any other text.
#[verifier::external_body]
fn parse_u128(s: &str) -> (r: Option<u128>)
    ensures
        r.is_some() == parses_as_u128(s@),
        r.is_some() ==> r.unwrap() as nat == digits_value(unsigned_digits(s@)),
{
    s.parse::<u128>().ok()
}

/// Reads a locked amount kept as text; text that is not such a number counts as
/// zero rather than as an error.
pub fn parse_locked_amount(s: &str) -> (r: u128)
    ensures
        r == locked_amount_of(s@),
{
    match parse_u128(s) {
        Some(v) => v,
        None => 0,
    }
}

} // verus!
