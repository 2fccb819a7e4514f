//! The durable state: the configuration, the reward source and the clock of
//! the last distribution.
//!
//! The reward source is fixed at instantiation and never changes.  External
//! contracts (the vault and the liquidity pool) are carried as descriptors
//! of plain values: their addresses, the token identifiers they deal in and
//! the set of underlying assets a pool tracks.

use vstd::prelude::*;

use crate::config::Config;
use crate::error::ContractError;

verus! {

/// A descriptor of the yield vault a vault-backed reward source holds
/// shares of.
#[derive(Debug, PartialEq, Eq)]
pub struct Vault {
    /// The vault contract's address.
    pub addr: String,
    /// The identifier of the vault's share token.
    pub vault_token: String,
}

/// A descriptor of a liquidity pool.
#[derive(Debug, PartialEq, Eq)]
pub struct Pool {
    /// The pool contract's address.
    pub pair_addr: String,
    /// The identifier of the pool's share token.
    pub lp_token_addr: String,
    /// The identifiers of the underlying assets the pool tracks.
    pub pool_assets: Vec<String>,
}

/// The mathematical model of a [`Pool`]: the asset list as a sequence.
pub ghost struct PoolModel {
    pub pair_addr: String,
    pub lp_token_addr: String,
    pub pool_assets: Seq<String>,
}

impl View for Pool {
    type V = PoolModel;

    open spec fn view(&self) -> PoolModel {
        PoolModel {
            pair_addr: self.pair_addr,
            lp_token_addr: self.lp_token_addr,
            pool_assets: self.pool_assets@,
        }
    }
}

/// The kind of reward token this contract distributes, fixed at creation.
#[derive(Debug, PartialEq, Eq)]
pub enum RewardType {
    /// The reward token is a vault share; unwinding takes two continuation
    /// stages (vault shares to pool shares, pool shares to underlying).
    Vault { vault: Vault, pool: Pool },
    /// The reward token is a pool share; unwinding takes one continuation
    /// stage.
    LP(Pool),
    /// The reward token is a plain fungible coin; no unwinding is needed.
    Coin(String),
}

/// The mathematical model of a [`RewardType`].
pub ghost enum RewardTypeModel {
    Vault { vault: Vault, pool: PoolModel },
    LP(PoolModel),
    Coin(String),
}

impl View for RewardType {
    type V = RewardTypeModel;

    open spec fn view(&self) -> RewardTypeModel {
        match *self {
            RewardType::Vault { vault, pool } => RewardTypeModel::Vault { vault, pool: pool@ },
            RewardType::LP(pool) => RewardTypeModel::LP(pool@),
            RewardType::Coin(denom) => RewardTypeModel::Coin(denom),
        }
    }
}

/// The pool behind a reward source, if it has one.
pub open spec fn spec_into_pool(rt: RewardTypeModel) -> Result<PoolModel, ContractError> {
    match rt {
        RewardTypeModel::Vault { vault: _, pool } => Ok(pool),
        RewardTypeModel::LP(pool) => Ok(pool),
        RewardTypeModel::Coin(_) => Err(ContractError::CoinRewardHasNoPool {}),
    }
}

impl RewardType {
    /// The pool this reward source unwinds through.  A coin-backed source
    /// has none and is reported as an error.
    pub fn into_pool(self) -> (r: Result<Pool, ContractError>)
        ensures
            r matches Ok(p) ==> spec_into_pool(self@) == Ok::<PoolModel, ContractError>(p@),
            r matches Err(e) ==> spec_into_pool(self@) == Err::<PoolModel, ContractError>(e),
    {
        match self {
            RewardType::Vault { vault: _, pool } => Ok(pool),
            RewardType::LP(pool) => Ok(pool),
            RewardType::Coin(_) => Err(ContractError::CoinRewardHasNoPool {}),
        }
    }

    /// An exact copy of this reward source descriptor.
    pub fn duplicate(&self) -> (r: RewardType)
        ensures
            r@ == self@,
    {
        match self {
            RewardType::Vault { vault, pool } => RewardType::Vault {
                vault: Vault { addr: vault.addr.clone(), vault_token: vault.vault_token.clone() },
                pool: pool.duplicate(),
            },
            RewardType::LP(pool) => RewardType::LP(pool.duplicate()),
            RewardType::Coin(denom) => RewardType::Coin(denom.clone()),
        }
    }
}

impl Pool {
    /// An exact copy of this pool descriptor.
    pub fn duplicate(&self) -> (r: Pool)
        ensures
            r@ == self@,
    {
        let mut assets: Vec<String> = Vec::new();
        let mut i: usize = 0;
        while i < self.pool_assets.len()
            invariant
                i <= self.pool_assets.len(),
                assets@ =~= self.pool_assets@.take(i as int),
            decreases self.pool_assets.len() - i,
        {
            assets.push(self.pool_assets[i].clone());
            i = i + 1;
        }
        proof {
            assert(assets@ =~= self.pool_assets@);
        }
        Pool {
            pair_addr: self.pair_addr.clone(),
            lp_token_addr: self.lp_token_addr.clone(),
            pool_assets: assets,
        }
    }
}

/// The contract's entire durable state.
#[derive(Debug, PartialEq, Eq)]
pub struct State {
    /// The durable configuration, mutated only through configuration
    /// updates.
    pub config: Config,
    /// The reward source, fixed at creation.
    pub reward_token: RewardType,
    /// The unix timestamp (seconds) of the most recent successful accrual.
    pub last_distributed: u64,
}

/// The mathematical model of a [`State`].
pub ghost struct StateModel {
    pub config: Config,
    pub reward_token: RewardTypeModel,
    pub last_distributed: u64,
}

impl View for State {
    type V = StateModel;

    open spec fn view(&self) -> StateModel {
        StateModel {
            config: self.config,
            reward_token: self.reward_token@,
            last_distributed: self.last_distributed,
        }
    }
}

} // verus!
