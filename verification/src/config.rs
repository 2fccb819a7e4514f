//! The durable configuration and its update protocol.
//!
//! Addresses are carried as strings.  Whether a string is a well-formed
//! account reference is decided by the host environment; the host's verdict
//! is handed in as a boolean (`addr_valid`) and the functions here state
//! exactly how that verdict decides the outcome.

use vstd::prelude::*;

use crate::error::ContractError;

verus! {

/// A configuration as submitted, before its distribution address has been
/// checked by the host.
#[derive(Debug, PartialEq, Eq)]
pub struct ConfigUnchecked {
    /// Reward units accrued per second of elapsed time, denominated in the
    /// reward source's native unit.
    pub emission_per_second: u128,
    /// The sole recipient of distributed assets, not yet validated.
    pub distribution_addr: String,
    /// The unix timestamp (seconds) at which rewards start accruing.
    pub rewards_start_time: u64,
}

/// The durable configuration.  Its distribution address has passed the
/// host's well-formedness check.
#[derive(Debug, PartialEq, Eq)]
pub struct Config {
    /// Reward units accrued per second of elapsed time.
    pub emission_per_second: u128,
    /// The sole recipient of distributed assets.
    pub distribution_addr: String,
    /// The unix timestamp (seconds) at which rewards start accruing.
    pub rewards_start_time: u64,
}

/// A partial configuration update: fields left as `None` keep their current
/// value.
#[derive(Debug, PartialEq, Eq)]
pub struct ConfigUpdates {
    pub emission_per_second: Option<u128>,
    pub distribution_addr: Option<String>,
    pub rewards_start_time: Option<u64>,
}

/// What validating a submitted configuration yields, given the host's
/// judgement of its address: the configuration to store, or the error.
pub open spec fn spec_check(c: ConfigUnchecked, addr_valid: bool) -> Result<Config, ContractError> {
    if addr_valid {
        Ok(Config {
            emission_per_second: c.emission_per_second,
            distribution_addr: c.distribution_addr,
            rewards_start_time: c.rewards_start_time,
        })
    } else {
        Err(ContractError::InvalidDistributionAddress {})
    }
}

/// The configuration obtained by applying a partial update: each field
/// present in `u` replaces the current one, each absent field is kept.
pub open spec fn spec_merged(c: Config, u: ConfigUpdates) -> ConfigUnchecked {
    ConfigUnchecked {
        emission_per_second: match u.emission_per_second {
            Some(e) => e,
            None => c.emission_per_second,
        },
        distribution_addr: match u.distribution_addr {
            Some(a) => a,
            None => c.distribution_addr,
        },
        rewards_start_time: match u.rewards_start_time {
            Some(t) => t,
            None => c.rewards_start_time,
        },
    }
}

impl ConfigUnchecked {
    /// Checks that this configuration is valid and returns the `Config` to
    /// store.  `addr_valid` is the host's verdict on
    /// `self.distribution_addr`: the check succeeds exactly when the host
    /// accepted the address.
    pub fn check(self, addr_valid: bool) -> (r: Result<Config, ContractError>)
        ensures
            r == spec_check(self, addr_valid),
    {
        if addr_valid {
            Ok(Config {
                emission_per_second: self.emission_per_second,
                distribution_addr: self.distribution_addr,
                rewards_start_time: self.rewards_start_time,
            })
        } else {
            Err(ContractError::InvalidDistributionAddress {})
        }
    }
}

impl Config {
    /// Applies `updates` to the existing configuration: a field that is
    /// `None` keeps its old value, a field that is `Some` is replaced.
    /// `addr_valid` is the host's verdict on the merged distribution
    /// address (for an absent update this is the stored, already validated
    /// address).
    pub fn update(&self, updates: ConfigUpdates, addr_valid: bool) -> (r: Result<
        Config,
        ContractError,
    >)
        ensures
            r == spec_check(spec_merged(*self, updates), addr_valid),
    {
        let merged = ConfigUnchecked {
            emission_per_second: match updates.emission_per_second {
                Some(e) => e,
                None => self.emission_per_second,
            },
            distribution_addr: match updates.distribution_addr {
                Some(a) => a,
                None => self.distribution_addr.clone(),
            },
            rewards_start_time: match updates.rewards_start_time {
                Some(t) => t,
                None => self.rewards_start_time,
            },
        };
        merged.check(addr_valid)
    }

    /// An exact copy of this configuration.
    pub fn duplicate(&self) -> (r: Config)
        ensures
            r == *self,
    {
        Config {
            emission_per_second: self.emission_per_second,
            distribution_addr: self.distribution_addr.clone(),
            rewards_start_time: self.rewards_start_time,
        }
    }
}

} // verus!
