//! The redemption pipeline and the configuration-update protocol.
//!
//! Each handler is a pure transition: it takes the durable state, the
//! block time and the host-queried facts it depends on, and returns what
//! to store plus the actions the host must perform.  On an error nothing
//! is stored and no action is performed.

use vstd::prelude::*;

use crate::accrual::accrued_amount;
use crate::accrual::spec_accrued;
use crate::config::Config;
use crate::config::ConfigUpdates;
use crate::config::spec_check;
use crate::config::spec_merged;
use crate::error::ContractError;
use crate::msg::Action;
use crate::msg::InternalMsg;
use crate::sink::spec_transfer_actions;
use crate::sink::transfer_actions;
use crate::state::RewardType;
use crate::state::RewardTypeModel;
use crate::state::State;
use crate::state::StateModel;
use crate::state::spec_into_pool;

verus! {

/// The host-queried facts a distribution against a vault-backed source
/// depends on.  For a pool- or coin-backed source the fields are unused.
#[derive(Clone, Copy, Debug, PartialEq, Eq, Structural)]
pub struct VaultSnapshot {
    /// What the vault would currently pay for the reward amount: the
    /// base-asset units that redeeming the accrued vault shares yields.
    pub base_token_equivalent: u128,
    /// The contract's current balance of the vault's share token.
    pub vault_token_balance: u128,
}

/// The outcome of `Distribute` at `now`: the new value of the last-
/// distributed clock together with the actions to perform, or the error.
///
/// On success the clock always advances to `now`, even on the futile-
/// redemption no-op path where a vault would pay zero base assets for the
/// accrued shares and no action is issued at all.
pub open spec fn spec_distribute(s: StateModel, now: u64, q: VaultSnapshot) -> Result<
    (u64, Seq<Action>),
    ContractError,
> {
    match spec_accrued(
        s.config.emission_per_second,
        s.last_distributed,
        s.config.rewards_start_time,
        now,
    ) {
        Err(e) => Err(e),
        Ok(amount) => match s.reward_token {
            RewardTypeModel::Vault { vault: _, pool: _ } => {
                if q.base_token_equivalent == 0 {
                    Ok((now, Seq::empty()))
                } else if q.vault_token_balance < amount {
                    Err(
                        ContractError::InsufficientVaultTokenBalance {
                            vault_token_balance: q.vault_token_balance,
                            redeem_amount: amount,
                        },
                    )
                } else {
                    Ok(
                        (
                            now,
                            seq![
                                Action::RedeemVaultTokens { amount },
                                Action::Callback(InternalMsg::VaultTokensRedeemed {}),
                            ],
                        ),
                    )
                }
            },
            RewardTypeModel::LP(_) => Ok(
                (
                    now,
                    seq![
                        Action::WithdrawLiquidity { amount },
                        Action::Callback(InternalMsg::LpRedeemed {}),
                    ],
                ),
            ),
            RewardTypeModel::Coin(denom) => Ok(
                (
                    now,
                    seq![
                        Action::Transfer {
                            asset: denom,
                            amount,
                            recipient: s.config.distribution_addr,
                        },
                    ],
                ),
            ),
        },
    }
}

/// Handles `Distribute`: accrues rewards up to `now` and starts unwinding
/// the reward source.  On success returns the new last-distributed clock
/// (always `now`) and the actions to perform, exactly as
/// [`spec_distribute`] states them.
pub fn execute_distribute(s: &State, now: u64, q: &VaultSnapshot) -> (r: Result<
    (u64, Vec<Action>),
    ContractError,
>)
    ensures
        r matches Ok(out) ==> spec_distribute(s@, now, *q) matches Ok(m) && m.0 == out.0 && m.1
            =~= out.1@,
        r matches Err(e) ==> spec_distribute(s@, now, *q) == Err::<(u64, Seq<Action>), ContractError>(
            e,
        ),
{
    let amount = match accrued_amount(
        s.config.emission_per_second,
        s.last_distributed,
        s.config.rewards_start_time,
        now,
    ) {
        Ok(a) => a,
        Err(e) => {
            return Err(e);
        },
    };
    let mut actions: Vec<Action> = Vec::new();
    match &s.reward_token {
        RewardType::Vault { vault: _, pool: _ } => {
            // A redemption the vault would price at zero base assets is
            // futile: succeed without issuing anything, so that a
            // configuration update flushing at this instant does not fail.
            if q.base_token_equivalent == 0 {
                return Ok((now, actions));
            }
            // An explicit balance check, for a clear error instead of an
            // underflow inside the vault.
            if q.vault_token_balance < amount {
                return Err(
                    ContractError::InsufficientVaultTokenBalance {
                        vault_token_balance: q.vault_token_balance,
                        redeem_amount: amount,
                    },
                );
            }
            actions.push(Action::RedeemVaultTokens { amount });
            actions.push(Action::Callback(InternalMsg::VaultTokensRedeemed {}));
        },
        RewardType::LP(_) => {
            actions.push(Action::WithdrawLiquidity { amount });
            actions.push(Action::Callback(InternalMsg::LpRedeemed {}));
        },
        RewardType::Coin(denom) => {
            actions.push(
                Action::Transfer {
                    asset: denom.clone(),
                    amount,
                    recipient: s.config.distribution_addr.clone(),
                },
            );
        },
    }
    Ok((now, actions))
}

/// The outcome of the first continuation stage, run after vault shares
/// were redeemed: withdraw liquidity for the full pool-share balance the
/// contract now holds (`lp_token_balance`, a fresh host query — not an
/// amount carried forward), then continue to the transfer stage.
pub open spec fn spec_vault_tokens_redeemed(s: StateModel, lp_token_balance: u128) -> Result<
    Seq<Action>,
    ContractError,
> {
    match spec_into_pool(s.reward_token) {
        Err(e) => Err(e),
        Ok(_) => Ok(
            seq![
                Action::WithdrawLiquidity { amount: lp_token_balance },
                Action::Callback(InternalMsg::LpRedeemed {}),
            ],
        ),
    }
}

/// Handles the `VaultTokensRedeemed` continuation, exactly as
/// [`spec_vault_tokens_redeemed`] states it.
pub fn execute_internal_vault_tokens_redeemed(s: &State, lp_token_balance: u128) -> (r: Result<
    Vec<Action>,
    ContractError,
>)
    ensures
        r matches Ok(out) ==> spec_vault_tokens_redeemed(s@, lp_token_balance) matches Ok(m) && m
            =~= out@,
        r matches Err(e) ==> spec_vault_tokens_redeemed(s@, lp_token_balance) == Err::<
            Seq<Action>,
            ContractError,
        >(e),
{
    match &s.reward_token {
        RewardType::Coin(_) => Err(ContractError::CoinRewardHasNoPool {}),
        _ => {
            let mut actions: Vec<Action> = Vec::new();
            actions.push(Action::WithdrawLiquidity { amount: lp_token_balance });
            actions.push(Action::Callback(InternalMsg::LpRedeemed {}));
            Ok(actions)
        },
    }
}

/// The outcome of the terminal continuation stage, run after pool shares
/// were redeemed: transfer the contract's entire current balance of every
/// asset the pool tracks (`balances`, fresh host queries paired by index
/// with the pool's asset list) to the distribution address, dropping zero
/// balances.
pub open spec fn spec_lp_redeemed(s: StateModel, balances: Seq<u128>) -> Result<
    Seq<Action>,
    ContractError,
> {
    match spec_into_pool(s.reward_token) {
        Err(e) => Err(e),
        Ok(pool) => Ok(
            spec_transfer_actions(pool.pool_assets, balances, s.config.distribution_addr),
        ),
    }
}

/// Handles the `LpRedeemed` continuation, exactly as [`spec_lp_redeemed`]
/// states it.
pub fn execute_internal_lp_redeemed(s: &State, balances: &Vec<u128>) -> (r: Result<
    Vec<Action>,
    ContractError,
>)
    requires
        spec_into_pool(s@.reward_token) matches Ok(pool) ==> balances@.len()
            == pool.pool_assets.len(),
    ensures
        r matches Ok(out) ==> spec_lp_redeemed(s@, balances@) matches Ok(m) && m =~= out@,
        r matches Err(e) ==> spec_lp_redeemed(s@, balances@) == Err::<Seq<Action>, ContractError>(e),
{
    match &s.reward_token {
        RewardType::Coin(_) => Err(ContractError::CoinRewardHasNoPool {}),
        RewardType::Vault { vault: _, pool } => Ok(
            transfer_actions(&pool.pool_assets, balances, &s.config.distribution_addr),
        ),
        RewardType::LP(pool) => Ok(
            transfer_actions(&pool.pool_assets, balances, &s.config.distribution_addr),
        ),
    }
}

/// The errors of a flush-distribution that a configuration update
/// swallows: the conditions under which there was simply nothing to flush.
/// Hard failures (an insufficient balance, an overflow) still abort the
/// update.
pub open spec fn spec_flush_swallows(e: ContractError) -> bool {
    ||| e is RewardsNotStarted
    ||| e is AlreadyDistributedThisInstant
    ||| e is NoRewardsToDistribute
}

/// The outcome of `UpdateConfig` at `now`: the configuration to store, the
/// new last-distributed clock if a flush ran, and the flush's actions.
///
/// Only the controller may update.  The partial update is merged over the
/// current configuration and validated first.  If the merged configuration
/// changes the emission rate or the start time, a full distribution is run
/// against the *old* configuration first, so that no accrual priced under
/// the old parameters is lost; a flush that finds nothing to distribute
/// ([`spec_flush_swallows`]) is not an error for the update.
pub open spec fn spec_update_config(
    s: StateModel,
    now: u64,
    sender_is_owner: bool,
    updates: ConfigUpdates,
    addr_valid: bool,
    q: VaultSnapshot,
) -> Result<(Config, Option<u64>, Seq<Action>), ContractError> {
    if !sender_is_owner {
        Err(ContractError::Unauthorized {})
    } else {
        match spec_check(spec_merged(s.config, updates), addr_valid) {
            Err(e) => Err(e),
            Ok(new_config) => {
                if new_config.emission_per_second != s.config.emission_per_second || new_config.rewards_start_time
                    != s.config.rewards_start_time {
                    match spec_distribute(s, now, q) {
                        Ok(out) => Ok((new_config, Some(out.0), out.1)),
                        Err(e) => {
                            if spec_flush_swallows(e) {
                                Ok((new_config, None, Seq::empty()))
                            } else {
                                Err(e)
                            }
                        },
                    }
                } else {
                    Ok((new_config, None, Seq::empty()))
                }
            },
        }
    }
}

/// Handles `UpdateConfig`, exactly as [`spec_update_config`] states it.
/// `sender_is_owner` is the host's controller check of the caller;
/// `addr_valid` is the host's verdict on the merged distribution address;
/// `q` feeds the flush-distribution, if one runs.
pub fn execute_update_config(
    s: &State,
    now: u64,
    sender_is_owner: bool,
    updates: ConfigUpdates,
    addr_valid: bool,
    q: &VaultSnapshot,
) -> (r: Result<(Config, Option<u64>, Vec<Action>), ContractError>)
    ensures
        r matches Ok(out) ==> spec_update_config(s@, now, sender_is_owner, updates, addr_valid, *q)
            matches Ok(m) && m.0 == out.0 && m.1 == out.1 && m.2 =~= out.2@,
        r matches Err(e) ==> spec_update_config(s@, now, sender_is_owner, updates, addr_valid, *q)
            == Err::<(Config, Option<u64>, Seq<Action>), ContractError>(e),
{
    if !sender_is_owner {
        return Err(ContractError::Unauthorized {});
    }
    let new_config = match s.config.update(updates, addr_valid) {
        Ok(c) => c,
        Err(e) => {
            return Err(e);
        },
    };
    if new_config.emission_per_second != s.config.emission_per_second
        || new_config.rewards_start_time != s.config.rewards_start_time {
        match execute_distribute(s, now, q) {
            Ok((new_last, actions)) => Ok((new_config, Some(new_last), actions)),
            Err(e) => match e {
                ContractError::RewardsNotStarted {}
                | ContractError::AlreadyDistributedThisInstant {}
                | ContractError::NoRewardsToDistribute {} => Ok((new_config, None, Vec::new())),
                _ => Err(e),
            },
        }
    } else {
        Ok((new_config, None, Vec::new()))
    }
}

} // verus!
