//! The error taxonomy of the contract.

use vstd::prelude::*;

verus! {

/// Everything that can make an invocation fail.  A failed invocation leaves
/// the durable state untouched: callers of the transition functions apply
/// the returned state only on `Ok`.
#[derive(Clone, Copy, Debug, PartialEq, Eq, Structural)]
pub enum ContractError {
    /// The caller lacks the required capability: a configuration update from
    /// an account that is not the controller, or a continuation message from
    /// any sender other than the contract itself.
    Unauthorized {},
    /// `Distribute` was called before `rewards_start_time`.
    RewardsNotStarted {},
    /// `Distribute` was called twice within the same discrete second.
    AlreadyDistributedThisInstant {},
    /// The accrued reward amount is zero.
    NoRewardsToDistribute {},
    /// The contract holds fewer vault tokens than the amount to redeem.
    InsufficientVaultTokenBalance {
        vault_token_balance: u128,
        redeem_amount: u128,
    },
    /// `emission_per_second * elapsed` does not fit in 128 bits.
    ArithmeticOverflow {},
    /// The distribution address of a new or updated configuration is not a
    /// well-formed account reference.
    InvalidDistributionAddress {},
    /// A pool was requested from a reward source that is a plain coin.
    CoinRewardHasNoPool {},
}

} // verus!
