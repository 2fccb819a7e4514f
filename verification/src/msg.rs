//! The commands the contract accepts and the actions it hands back to the
//! host for execution.

use vstd::prelude::*;

use crate::config::Config;
use crate::config::ConfigUpdates;
use crate::state::RewardType;
use crate::state::RewardTypeModel;

verus! {

/// The information needed at instantiation to locate the reward source.
/// The host resolves it (by querying the named contracts) into a
/// [`RewardType`] descriptor.
#[derive(Debug, PartialEq, Eq)]
pub enum RewardInfo {
    /// The address of the vault, if the reward token is a vault token.
    VaultAddr(String),
    /// The address of the pool, if the reward token is a pool share.
    AstroportPoolAddr(String),
    /// The denom of the coin, if the reward token is a plain coin.
    NativeCoin(String),
}

/// The instantiation command.
#[derive(Debug, PartialEq, Eq)]
pub struct InstantiateMsg {
    /// The account to be appointed controller.  Ownership bookkeeping is
    /// the host's concern; the field is carried for it.
    pub owner: String,
    /// The emission rate per second.
    pub emission_per_second: u128,
    /// Where the reward source lives.
    pub reward_token_info: RewardInfo,
    /// The address rewards are distributed to.
    pub distribution_addr: String,
    /// The unix timestamp (seconds) at which rewards start.
    pub rewards_start_time: u64,
}

/// The continuation stages of the redemption pipeline.  A continuation is
/// accepted only from the contract's own address.
#[derive(Clone, Copy, Debug, PartialEq, Eq, Structural)]
pub enum InternalMsg {
    /// Runs after vault shares were redeemed: withdraw liquidity for the
    /// full pool-share balance now held.
    VaultTokensRedeemed {},
    /// Runs after pool shares were redeemed: transfer every non-zero
    /// underlying balance to the distribution address.
    LpRedeemed {},
}

/// The executable commands.
#[derive(Debug, PartialEq, Eq)]
pub enum ExecuteMsg {
    /// Accrue rewards since the last distribution and start unwinding them.
    /// Anyone may call.
    Distribute {},
    /// Update the configuration.  Controller-only.
    UpdateConfig { updates: ConfigUpdates },
    /// Advance the redemption pipeline.  Self-only.
    Internal(InternalMsg),
}

/// The queries.
#[derive(Debug, PartialEq, Eq)]
pub enum QueryMsg {
    /// The configuration together with the non-configurable state.
    State {},
}

/// The response to a state query.
#[derive(Debug, PartialEq, Eq)]
pub struct StateResponse {
    pub config: Config,
    pub reward_token: RewardType,
    pub last_distributed: u64,
}

/// The mathematical model of a [`StateResponse`].
pub ghost struct StateResponseModel {
    pub config: Config,
    pub reward_token: RewardTypeModel,
    pub last_distributed: u64,
}

impl View for StateResponse {
    type V = StateResponseModel;

    open spec fn view(&self) -> StateResponseModel {
        StateResponseModel {
            config: self.config,
            reward_token: self.reward_token@,
            last_distributed: self.last_distributed,
        }
    }
}

/// An instruction to the host.  The transition functions return these; the
/// host turns each into the corresponding chain message, in order.
#[derive(Debug, PartialEq, Eq)]
pub enum Action {
    /// Redeem `amount` vault shares for the underlying pool shares.
    RedeemVaultTokens { amount: u128 },
    /// Withdraw liquidity for `amount` pool shares.
    WithdrawLiquidity { amount: u128 },
    /// Transfer `amount` of `asset` to `recipient`.
    Transfer { asset: String, amount: u128, recipient: String },
    /// Schedule a self-addressed continuation.
    Callback(InternalMsg),
}

} // verus!
