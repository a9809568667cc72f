use vstd::prelude::*;

use crate::reward::{
    compute_reward, locked_amount_of, parse_locked_amount, reward_of, AccountBalancesAtBlock,
    AccountInPool,
};

verus! {

/// A query that gathering an account's balances makes of the node, in the
/// order in which they are made.
#[derive(Clone, Copy, Debug, PartialEq, Eq, Structural)]
pub enum Query {
    /// Resolve the staking pool of the account.
    PoolAccountId,
    /// The account's state in its pool at the block.
    AccountInPool,
    /// The amount still locked at the block; skipped when the account keeps one.
    LockedAmount,
    /// The native balance at the block.
    NativeBalance,
    /// The balance that the owner of a lockup can spend, at the block.
    LiquidOwnersBalance,
}

/// What came back from the query last asked for. Any reply other than a success
/// of the kind asked for counts as a failure of that query.
#[derive(Clone, Copy, Debug, PartialEq, Eq, Structural)]
pub enum Reply {
    PoolAccountResolved,
    AccountInPool(AccountInPool),
    Amount(u128),
    Failed,
}

/// What the caller does next.
#[derive(Clone, Copy, Debug, PartialEq, Eq, Structural)]
pub enum Action {
    /// Make this query and hand its reply to `Collector::step`.
    Ask(Query),
    /// All is gathered.
    Finish(AccountBalancesAtBlock),
    /// This query failed and nothing meaningful can be gathered without it.
    Abort(Query),
}

/// The decisions of gathering one account's balances at one block.
pub struct Collector {
    /// The query whose reply is awaited; `None` once finished or aborted.
    pub pending: Option<Query>,
    /// The locked amount that the account keeps as text, if it keeps one.
    pub cached_locked_amount: Option<String>,
    pub account_in_pool: AccountInPool,
    pub locked_amount: u128,
    pub native_balance: u128,
}

/// The balances gathered, with the reward derived from them.
pub open spec fn balances_of(
    account_in_pool: AccountInPool,
    native_balance: u128,
    liquid_balance: u128,
    locked_amount: u128,
) -> AccountBalancesAtBlock {
    AccountBalancesAtBlock {
        account_in_pool,
        native_balance,
        liquid_balance,
        reward: reward_of(
            account_in_pool.staked_balance,
            account_in_pool.unstaked_balance,
            native_balance,
            locked_amount,
        ) as u128,
    }
}

/// Puts the gathered balances together and derives the reward.
pub fn account_balances(
    account_in_pool: AccountInPool,
    native_balance: u128,
    liquid_balance: u128,
    locked_amount: u128,
) -> (r: AccountBalancesAtBlock)
    ensures
        r == balances_of(account_in_pool, native_balance, liquid_balance, locked_amount),
{
    let reward = compute_reward(
        account_in_pool.get_staked_balance(),
        account_in_pool.get_unstaked_balance(),
        native_balance,
        locked_amount,
    );
    AccountBalancesAtBlock { account_in_pool, native_balance, liquid_balance, reward }
}

impl Collector {
    /// The state after `reply` to the pending query, and what to do next.
    /// Resolving the pool, the pool state and the native balance are essential:
    /// their failure aborts. A failed locked-amount query counts as zero, and a
    /// failed liquid-owners query as the native balance.
    pub open spec fn step_of(self, reply: Reply) -> (Collector, Action) {
        let aborted = Collector { pending: None, ..self };
        match self.pending {
            Some(Query::PoolAccountId) => match reply {
                Reply::PoolAccountResolved => (
                    Collector { pending: Some(Query::AccountInPool), ..self },
                    Action::Ask(Query::AccountInPool),
                ),
                _ => (aborted, Action::Abort(Query::PoolAccountId)),
            },
            Some(Query::AccountInPool) => match reply {
                Reply::AccountInPool(p) => match self.cached_locked_amount {
                    Some(s) => (
                        Collector {
                            pending: Some(Query::NativeBalance),
                            account_in_pool: p,
                            locked_amount: locked_amount_of(s@),
                            ..self
                        },
                        Action::Ask(Query::NativeBalance),
                    ),
                    None => (
                        Collector {
                            pending: Some(Query::LockedAmount),
                            account_in_pool: p,
                            ..self
                        },
                        Action::Ask(Query::LockedAmount),
                    ),
                },
                _ => (aborted, Action::Abort(Query::AccountInPool)),
            },
            Some(Query::LockedAmount) => {
                let locked = match reply {
                    Reply::Amount(a) => a,
                    _ => 0,
                };
                (
                    Collector {
                        pending: Some(Query::NativeBalance),
                        locked_amount: locked,
                        ..self
                    },
                    Action::Ask(Query::NativeBalance),
                )
            },
            Some(Query::NativeBalance) => match reply {
                Reply::Amount(a) => (
                    Collector {
                        pending: Some(Query::LiquidOwnersBalance),
                        native_balance: a,
                        ..self
                    },
                    Action::Ask(Query::LiquidOwnersBalance),
                ),
                _ => (aborted, Action::Abort(Query::NativeBalance)),
            },
            Some(Query::LiquidOwnersBalance) => {
                let liquid = match reply {
                    Reply::Amount(a) => a,
                    _ => self.native_balance,
                };
                (
                    aborted,
                    Action::Finish(
                        balances_of(
                            self.account_in_pool,
                            self.native_balance,
                            liquid,
                            self.locked_amount,
                        ),
                    ),
                )
            },
            None => (self, Action::Abort(Query::PoolAccountId)),
        }
    }

    /// A collector for an account that keeps `cached_locked_amount`, or none;
    /// its first query resolves the account's pool.
    pub fn new(cached_locked_amount: Option<String>) -> (r: Collector)
        ensures
            r.pending == Some(Query::PoolAccountId),
            r.cached_locked_amount == cached_locked_amount,
            r.account_in_pool == (AccountInPool { staked_balance: 0, unstaked_balance: 0 }),
            r.locked_amount == 0,
            r.native_balance == 0,
    {
        Collector {
            pending: Some(Query::PoolAccountId),
            cached_locked_amount,
            account_in_pool: AccountInPool { staked_balance: 0, unstaked_balance: 0 },
            locked_amount: 0,
            native_balance: 0,
        }
    }

    /// Takes the reply to the pending query and says what to do next.
    pub fn step(&mut self, reply: Reply) -> (r: Action)
        requires
            old(self).pending.is_some(),
        ensures
            (*final(self), r) == old(self).step_of(reply),
    {
        let query = match self.pending {
            Some(q) => q,
            None => Query::PoolAccountId,
        };
        match query {
            Query::PoolAccountId => match reply {
                Reply::PoolAccountResolved => {
                    self.pending = Some(Query::AccountInPool);
                    Action::Ask(Query::AccountInPool)
                },
                _ => {
                    self.pending = None;
                    Action::Abort(Query::PoolAccountId)
                },
            },
            Query::AccountInPool => match reply {
                Reply::AccountInPool(p) => {
                    self.account_in_pool = p;
                    match &self.cached_locked_amount {
                        Some(s) => {
                            self.locked_amount = parse_locked_amount(s.as_str());
                            self.pending = Some(Query::NativeBalance);
                            Action::Ask(Query::NativeBalance)
                        },
                        None => {
                            self.pending = Some(Query::LockedAmount);
                            Action::Ask(Query::LockedAmount)
                        },
                    }
                },
                _ => {
                    self.pending = None;
                    Action::Abort(Query::AccountInPool)
                },
            },
            Query::LockedAmount => {
                self.locked_amount = match reply {
                    Reply::Amount(a) => a,
                    _ => 0,
                };
                self.pending = Some(Query::NativeBalance);
                Action::Ask(Query::NativeBalance)
            },
            Query::NativeBalance => match reply {
                Reply::Amount(a) => {
                    self.native_balance = a;
                    self.pending = Some(Query::LiquidOwnersBalance);
                    Action::Ask(Query::LiquidOwnersBalance)
                },
                _ => {
                    self.pending = None;
                    Action::Abort(Query::NativeBalance)
                },
            },
            Query::LiquidOwnersBalance => {
                let liquid = match reply {
                    Reply::Amount(a) => a,
                    _ => self.native_balance,
                };
                self.pending = None;
                Action::Finish(
                    account_balances(
                        self.account_in_pool,
                        self.native_balance,
                        liquid,
                        self.locked_amount,
                    ),
                )
            },
        }
    }
}

/// A failed native-balance query aborts the gathering: no balance stands in
/// for it.
pub proof fn lemma_native_balance_failure_aborts(c: Collector, reply: Reply)
    requires
        c.pending == Some(Query::NativeBalance),
        !(reply is Amount),
    ensures
        c.step_of(reply).1 == Action::Abort(Query::NativeBalance),
        c.step_of(reply).0.pending.is_none(),
{
}

/// A failed liquid-owners query finishes with the liquid balance equal to the
/// native balance.
pub proof fn lemma_liquid_balance_falls_back(c: Collector, reply: Reply)
    requires
        c.pending == Some(Query::LiquidOwnersBalance),
        !(reply is Amount),
    ensures
        c.step_of(reply).1 is Finish,
        c.step_of(reply).1->Finish_0.liquid_balance == c.native_balance,
        c.step_of(reply).1->Finish_0.native_balance == c.native_balance,
{
}

} // verus!
