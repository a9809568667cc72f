//! Staking balances of an account at a block, the reward derived from them, and
//! their rendering as amounts of whole tokens.
pub mod reward;
pub mod amount;
pub mod style;
pub mod collect;
