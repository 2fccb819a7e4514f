//! The top-level entry points: instantiation, command dispatch and the
//! state query.

use vstd::prelude::*;

use crate::config::Config;
use crate::config::ConfigUnchecked;
use crate::config::spec_check;
use crate::error::ContractError;
use crate::execute::VaultSnapshot;
use crate::execute::execute_distribute;
use crate::execute::execute_internal_lp_redeemed;
use crate::execute::execute_internal_vault_tokens_redeemed;
use crate::execute::execute_update_config;
use crate::execute::spec_distribute;
use crate::execute::spec_lp_redeemed;
use crate::execute::spec_update_config;
use crate::execute::spec_vault_tokens_redeemed;
use crate::msg::Action;
use crate::msg::ExecuteMsg;
use crate::msg::InstantiateMsg;
use crate::msg::InternalMsg;
use crate::msg::QueryMsg;
use crate::msg::RewardInfo;
use crate::msg::StateResponse;
use crate::state::RewardType;
use crate::state::RewardTypeModel;
use crate::state::State;
use crate::state::StateModel;
use crate::state::spec_into_pool;

verus! {

/// The invocation context the host supplies: the contract's own address
/// and the current block time in seconds, trusted as-is.
#[derive(Debug, PartialEq, Eq)]
pub struct Env {
    pub contract_address: String,
    pub block_time: u64,
}

/// The sender of the current invocation.
#[derive(Debug, PartialEq, Eq)]
pub struct MessageInfo {
    pub sender: String,
}

/// Everything the host must look up before dispatching a command: the
/// authorization verdicts and the balances and quotes the handlers
/// re-derive their work from.  Fields a given command does not consult are
/// ignored.
#[derive(Debug, PartialEq, Eq)]
pub struct HostSnapshot {
    /// Whether the sender is the designated controller.
    pub sender_is_owner: bool,
    /// The host's verdict on the distribution address a configuration
    /// update would store (for an absent update: on the stored address,
    /// which is always `true`).
    pub updated_addr_valid: bool,
    /// The vault quote and balance a vault-backed distribution consults.
    pub vault: VaultSnapshot,
    /// The contract's current balance of the pool's share token.
    pub lp_token_balance: u128,
    /// The contract's current balances of the pool's assets, paired by
    /// index with the pool's asset list.
    pub pool_asset_balances: Vec<u128>,
}

/// The mathematical model of a [`HostSnapshot`].
pub ghost struct HostSnapshotModel {
    pub sender_is_owner: bool,
    pub updated_addr_valid: bool,
    pub vault: VaultSnapshot,
    pub lp_token_balance: u128,
    pub pool_asset_balances: Seq<u128>,
}

impl View for HostSnapshot {
    type V = HostSnapshotModel;

    open spec fn view(&self) -> HostSnapshotModel {
        HostSnapshotModel {
            sender_is_owner: self.sender_is_owner,
            updated_addr_valid: self.updated_addr_valid,
            vault: self.vault,
            lp_token_balance: self.lp_token_balance,
            pool_asset_balances: self.pool_asset_balances@,
        }
    }
}

/// What an invocation changes: the fields of the durable state to
/// overwrite (absent fields are kept) and the actions for the host to
/// perform, in order.
#[derive(Debug, PartialEq, Eq)]
pub struct Transition {
    pub new_config: Option<Config>,
    pub new_last_distributed: Option<u64>,
    pub actions: Vec<Action>,
}

/// The mathematical model of a [`Transition`].
#[verifier::ext_equal]
pub ghost struct TransitionModel {
    pub new_config: Option<Config>,
    pub new_last_distributed: Option<u64>,
    pub actions: Seq<Action>,
}

impl View for Transition {
    type V = TransitionModel;

    open spec fn view(&self) -> TransitionModel {
        TransitionModel {
            new_config: self.new_config,
            new_last_distributed: self.new_last_distributed,
            actions: self.actions@,
        }
    }
}

/// Whether `rt` is the reward source that `info` names: the variant
/// corresponds and the resolved descriptor carries the named address or
/// denom.
pub open spec fn spec_resolves(info: RewardInfo, rt: RewardTypeModel) -> bool {
    match info {
        RewardInfo::VaultAddr(addr) => rt matches RewardTypeModel::Vault { vault, pool: _ }
            && vault.addr == addr,
        RewardInfo::AstroportPoolAddr(addr) => rt matches RewardTypeModel::LP(pool)
            && pool.pair_addr == addr,
        RewardInfo::NativeCoin(denom) => rt == RewardTypeModel::Coin(denom),
    }
}

/// The state created at instantiation: the validated configuration, the
/// resolved reward source, and the clock initialized to the creation time.
pub open spec fn spec_instantiate(
    msg: InstantiateMsg,
    rt: RewardTypeModel,
    addr_valid: bool,
    now: u64,
) -> Result<StateModel, ContractError> {
    match spec_check(
        ConfigUnchecked {
            emission_per_second: msg.emission_per_second,
            distribution_addr: msg.distribution_addr,
            rewards_start_time: msg.rewards_start_time,
        },
        addr_valid,
    ) {
        Err(e) => Err(e),
        Ok(config) => Ok(StateModel { config, reward_token: rt, last_distributed: now }),
    }
}

/// Creates the contract's initial state.  The host has resolved
/// `msg.reward_token_info` into the descriptor `reward_token` (hence the
/// correspondence requirement) and judged the distribution address
/// (`addr_valid`); `now` is the creation time.  The owner named in `msg`
/// is recorded by the host, not here.
pub fn instantiate(msg: InstantiateMsg, reward_token: RewardType, addr_valid: bool, now: u64) -> (r:
    Result<State, ContractError>)
    requires
        spec_resolves(msg.reward_token_info, reward_token@),
    ensures
        r matches Ok(s) ==> spec_instantiate(msg, reward_token@, addr_valid, now) == Ok::<
            StateModel,
            ContractError,
        >(s@),
        r matches Err(e) ==> spec_instantiate(msg, reward_token@, addr_valid, now) == Err::<
            StateModel,
            ContractError,
        >(e),
{
    let unchecked = ConfigUnchecked {
        emission_per_second: msg.emission_per_second,
        distribution_addr: msg.distribution_addr,
        rewards_start_time: msg.rewards_start_time,
    };
    let config = match unchecked.check(addr_valid) {
        Ok(c) => c,
        Err(e) => {
            return Err(e);
        },
    };
    Ok(State { config, reward_token, last_distributed: now })
}

/// The transition for a command `msg` received at `env.block_time` from
/// `info.sender`, given the host's snapshot:
/// - `Distribute` runs the accrual and the first pipeline stage;
/// - `UpdateConfig` runs the controller-checked update protocol;
/// - `Internal(..)` advances the pipeline, and is accepted only when the
///   sender is the contract's own address.
pub open spec fn spec_execute(
    s: StateModel,
    env: Env,
    info: MessageInfo,
    msg: ExecuteMsg,
    host: HostSnapshotModel,
) -> Result<TransitionModel, ContractError> {
    match msg {
        ExecuteMsg::Distribute {} => match spec_distribute(s, env.block_time, host.vault) {
            Err(e) => Err(e),
            Ok(out) => Ok(
                TransitionModel {
                    new_config: None,
                    new_last_distributed: Some(out.0),
                    actions: out.1,
                },
            ),
        },
        ExecuteMsg::UpdateConfig { updates } => match spec_update_config(
            s,
            env.block_time,
            host.sender_is_owner,
            updates,
            host.updated_addr_valid,
            host.vault,
        ) {
            Err(e) => Err(e),
            Ok(out) => Ok(
                TransitionModel {
                    new_config: Some(out.0),
                    new_last_distributed: out.1,
                    actions: out.2,
                },
            ),
        },
        ExecuteMsg::Internal(internal) => {
            if info.sender@ != env.contract_address@ {
                Err(ContractError::Unauthorized {})
            } else {
                match internal {
                    InternalMsg::VaultTokensRedeemed {} => match spec_vault_tokens_redeemed(
                        s,
                        host.lp_token_balance,
                    ) {
                        Err(e) => Err(e),
                        Ok(actions) => Ok(
                            TransitionModel {
                                new_config: None,
                                new_last_distributed: None,
                                actions,
                            },
                        ),
                    },
                    InternalMsg::LpRedeemed {} => match spec_lp_redeemed(
                        s,
                        host.pool_asset_balances,
                    ) {
                        Err(e) => Err(e),
                        Ok(actions) => Ok(
                            TransitionModel {
                                new_config: None,
                                new_last_distributed: None,
                                actions,
                            },
                        ),
                    },
                }
            }
        },
    }
}

/// Dispatches a command, exactly as [`spec_execute`] states it.
pub fn execute(
    s: &State,
    env: &Env,
    info: &MessageInfo,
    msg: ExecuteMsg,
    host: &HostSnapshot,
) -> (r: Result<Transition, ContractError>)
    requires
        spec_into_pool(s@.reward_token) matches Ok(pool) ==> host@.pool_asset_balances.len()
            == pool.pool_assets.len(),
    ensures
        r matches Ok(t) ==> spec_execute(s@, *env, *info, msg, host@) matches Ok(m) && t@ =~= m,
        r matches Err(e) ==> spec_execute(s@, *env, *info, msg, host@) == Err::<
            TransitionModel,
            ContractError,
        >(e),
{
    match msg {
        ExecuteMsg::Distribute {} => match execute_distribute(s, env.block_time, &host.vault) {
            Err(e) => Err(e),
            Ok((new_last, actions)) => Ok(
                Transition {
                    new_config: None,
                    new_last_distributed: Some(new_last),
                    actions,
                },
            ),
        },
        ExecuteMsg::UpdateConfig { updates } => match execute_update_config(
            s,
            env.block_time,
            host.sender_is_owner,
            updates,
            host.updated_addr_valid,
            &host.vault,
        ) {
            Err(e) => Err(e),
            Ok((new_config, new_last, actions)) => Ok(
                Transition {
                    new_config: Some(new_config),
                    new_last_distributed: new_last,
                    actions,
                },
            ),
        },
        ExecuteMsg::Internal(internal) => {
            if !info.sender.eq(&env.contract_address) {
                return Err(ContractError::Unauthorized {});
            }
            match internal {
                InternalMsg::VaultTokensRedeemed {} => {
                    match execute_internal_vault_tokens_redeemed(s, host.lp_token_balance) {
                        Err(e) => Err(e),
                        Ok(actions) => Ok(
                            Transition {
                                new_config: None,
                                new_last_distributed: None,
                                actions,
                            },
                        ),
                    }
                },
                InternalMsg::LpRedeemed {} => {
                    match execute_internal_lp_redeemed(s, &host.pool_asset_balances) {
                        Err(e) => Err(e),
                        Ok(actions) => Ok(
                            Transition {
                                new_config: None,
                                new_last_distributed: None,
                                actions,
                            },
                        ),
                    }
                },
            }
        },
    }
}

/// Answers a query: the configuration together with the non-configurable
/// state, copied out of `s`.
pub fn query(s: &State, msg: QueryMsg) -> (r: StateResponse)
    ensures
        r@.config == s@.config,
        r@.reward_token == s@.reward_token,
        r@.last_distributed == s@.last_distributed,
{
    match msg {
        QueryMsg::State {} => StateResponse {
            config: s.config.duplicate(),
            reward_token: s.reward_token.duplicate(),
            last_distributed: s.last_distributed,
        },
    }
}

} // verus!
