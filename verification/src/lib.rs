//! A reward distributor: converts elapsed wall-clock time into a redeemable
//! reward quantity and routes the resulting assets to a fixed recipient.
//!
//! The library is the contract's decision core, written over plain values.
//! Every state transition is a pure function from the durable state
//! (`state::State`) and a snapshot of host-supplied facts (balances, query
//! results, authorization verdicts) to a new durable state plus a list of
//! actions (`msg::Action`) for the host to perform.  The host shell that
//! reads storage, performs chain queries and dispatches the resulting
//! messages lives outside the library and feeds it those plain values.
//!
//! Error policy: conditions under which there is nothing to distribute
//! (`RewardsNotStarted`, `AlreadyDistributedThisInstant`,
//! `NoRewardsToDistribute`) are uniform hard errors of `Distribute`; a
//! configuration update that must flush accrued rewards first swallows
//! exactly those three errors and proceeds.

pub mod accrual;
pub mod config;
pub mod contract;
pub mod error;
pub mod execute;
pub mod laws;
pub mod msg;
pub mod sink;
pub mod state;
