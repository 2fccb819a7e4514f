//! The laws of the distribution pipeline, proved over the transition
//! models: how the clock moves across any sequence of distribution calls,
//! that no instant pays twice, what a full run conserves, that a
//! configuration change flushes under the old parameters first, and that
//! replaying a continuation against drained balances pays nothing.

use vstd::prelude::*;

use crate::accrual::spec_accrued;
use crate::accrual::spec_effective_elapsed;
use crate::config::Config;
use crate::config::ConfigUpdates;
use crate::config::spec_check;
use crate::config::spec_merged;
use crate::error::ContractError;
use crate::execute::VaultSnapshot;
use crate::execute::spec_distribute;
use crate::execute::spec_lp_redeemed;
use crate::execute::spec_update_config;
use crate::execute::spec_vault_tokens_redeemed;
use crate::msg::Action;
use crate::sink::lemma_transfer_actions_total;
use crate::sink::spec_sum;
use crate::sink::spec_total_transferred;
use crate::sink::spec_transfer_actions;
use crate::state::StateModel;
use crate::state::spec_into_pool;

verus! {

/// The state after one `Distribute` call: on success only the clock moves,
/// on an error nothing changes.
pub open spec fn spec_after_distribute(s: StateModel, now: u64, q: VaultSnapshot) -> StateModel {
    match spec_distribute(s, now, q) {
        Ok(out) => StateModel { last_distributed: out.0, ..s },
        Err(_) => s,
    }
}

/// The state after a sequence of `Distribute` calls, each given as the
/// block time and the vault snapshot the host supplied for it.
pub open spec fn spec_run_distributes(s: StateModel, calls: Seq<(u64, VaultSnapshot)>) -> StateModel
    decreases calls.len(),
{
    if calls.len() == 0 {
        s
    } else {
        spec_after_distribute(
            spec_run_distributes(s, calls.drop_last()),
            calls.last().0,
            calls.last().1,
        )
    }
}

/// The block time of the last call in the sequence that succeeded, if any
/// did.
pub open spec fn spec_last_success_time(s: StateModel, calls: Seq<(u64, VaultSnapshot)>) -> Option<
    u64,
>
    decreases calls.len(),
{
    if calls.len() == 0 {
        None
    } else {
        let prev = spec_run_distributes(s, calls.drop_last());
        if spec_distribute(prev, calls.last().0, calls.last().1) is Ok {
            Some(calls.last().0)
        } else {
            spec_last_success_time(s, calls.drop_last())
        }
    }
}

/// A successful `Distribute` advances the clock to exactly its block time,
/// which lies strictly after the previous clock value; nothing else of the
/// durable state changes, and a failed call changes nothing at all.
pub proof fn lemma_distribute_advances_clock(s: StateModel, now: u64, q: VaultSnapshot)
    ensures
        spec_distribute(s, now, q) matches Ok(out) ==> out.0 == now && now > s.last_distributed,
        spec_after_distribute(s, now, q).config == s.config,
        spec_after_distribute(s, now, q).reward_token == s.reward_token,
        spec_distribute(s, now, q) is Err ==> spec_after_distribute(s, now, q) == s,
{
    if spec_distribute(s, now, q) is Ok {
        let rate = s.config.emission_per_second;
        let last = s.last_distributed;
        let start = s.config.rewards_start_time;
        let elapsed = spec_effective_elapsed(last, start, now);
        assert(rate * elapsed != 0);
        assert(elapsed != 0) by (nonlinear_arith)
            requires
                rate * elapsed != 0,
        ;
    }
}

/// The clock never runs backwards: across any sequence of `Distribute`
/// calls it is non-decreasing, and it ends at the block time of the last
/// successful call, or where it began if none succeeded.
pub proof fn lemma_clock_monotonic(s: StateModel, calls: Seq<(u64, VaultSnapshot)>)
    ensures
        spec_run_distributes(s, calls).last_distributed >= s.last_distributed,
        spec_run_distributes(s, calls).last_distributed == match spec_last_success_time(s, calls) {
            Some(t) => t,
            None => s.last_distributed,
        },
    decreases calls.len(),
{
    if calls.len() > 0 {
        lemma_clock_monotonic(s, calls.drop_last());
        let prev = spec_run_distributes(s, calls.drop_last());
        lemma_distribute_advances_clock(prev, calls.last().0, calls.last().1);
    }
}

/// No instant pays twice: after a successful `Distribute` at `now`, a
/// second call at the same `now` fails (whatever the host reports for it)
/// and so pays nothing.
pub proof fn lemma_distribute_once_per_instant(
    s: StateModel,
    now: u64,
    q1: VaultSnapshot,
    q2: VaultSnapshot,
)
    requires
        spec_distribute(s, now, q1) is Ok,
    ensures
        spec_distribute(spec_after_distribute(s, now, q1), now, q2) == Err::<
            (u64, Seq<Action>),
            ContractError,
        >(ContractError::AlreadyDistributedThisInstant {}),
{
    lemma_distribute_advances_clock(s, now, q1);
}

/// Conservation for a coin-backed source, where the pipeline is a single
/// stage: a successful `Distribute` transfers exactly the accrued amount,
/// in one transfer to the distribution address.
pub proof fn lemma_distribute_coin_conserves(s: StateModel, now: u64, q: VaultSnapshot)
    requires
        s.reward_token is Coin,
    ensures
        spec_distribute(s, now, q) matches Ok(out) ==> {
            &&& spec_accrued(
                s.config.emission_per_second,
                s.last_distributed,
                s.config.rewards_start_time,
                now,
            ) matches Ok(amount)
            &&& spec_total_transferred(out.1) == amount
            &&& out.1 =~= seq![
                Action::Transfer {
                    asset: s.reward_token->Coin_0,
                    amount,
                    recipient: s.config.distribution_addr,
                },
            ]
        },
{
    if spec_distribute(s, now, q) is Ok {
        let out = spec_distribute(s, now, q)->Ok_0;
        let amount = spec_accrued(
            s.config.emission_per_second,
            s.last_distributed,
            s.config.rewards_start_time,
            now,
        )->Ok_0;
        assert(out.1.len() == 1);
        assert(out.1.last() == Action::Transfer {
            asset: s.reward_token->Coin_0,
            amount,
            recipient: s.config.distribution_addr,
        });
        assert(out.1.drop_last() =~= Seq::<Action>::empty());
        assert(spec_total_transferred(Seq::<Action>::empty()) == 0);
        assert(spec_total_transferred(out.1) == amount);
    }
}

/// Conservation at the start of a vault-backed run: a successful
/// `Distribute` that issues anything at all redeems exactly the accrued
/// amount and transfers nothing itself; the value reaches the recipient
/// through the later stages, which move whole balances.
pub proof fn lemma_distribute_vault_redeems_accrued(s: StateModel, now: u64, q: VaultSnapshot)
    requires
        s.reward_token is Vault,
    ensures
        spec_distribute(s, now, q) matches Ok(out) ==> out.1.len() > 0 ==> {
            &&& spec_accrued(
                s.config.emission_per_second,
                s.last_distributed,
                s.config.rewards_start_time,
                now,
            ) matches Ok(amount)
            &&& out.1 =~= seq![
                Action::RedeemVaultTokens { amount },
                Action::Callback(crate::msg::InternalMsg::VaultTokensRedeemed {}),
            ]
            &&& spec_total_transferred(out.1) == 0
        },
{
    if spec_distribute(s, now, q) is Ok {
        let out = spec_distribute(s, now, q)->Ok_0;
        if out.1.len() > 0 {
            let amount = spec_accrued(
                s.config.emission_per_second,
                s.last_distributed,
                s.config.rewards_start_time,
                now,
            )->Ok_0;
            assert(out.1.len() == 2);
            let first = out.1.drop_last();
            assert(out.1.last() == Action::Callback(crate::msg::InternalMsg::VaultTokensRedeemed {}));
            assert(first.last() == Action::RedeemVaultTokens { amount });
            assert(first.drop_last() =~= Seq::<Action>::empty());
            assert(spec_total_transferred(Seq::<Action>::empty()) == 0);
            assert(spec_total_transferred(first) == 0);
            assert(spec_total_transferred(out.1) == 0);
        }
    }
}

/// Conservation at the terminal stage: a successful `LpRedeemed`
/// continuation transfers exactly the sum of the balances the host
/// reported, and every transfer goes to the distribution address.
pub proof fn lemma_lp_redeemed_conserves(s: StateModel, balances: Seq<u128>)
    requires
        spec_into_pool(s.reward_token) matches Ok(pool) ==> balances.len()
            == pool.pool_assets.len(),
    ensures
        spec_lp_redeemed(s, balances) matches Ok(acts) ==> {
            &&& spec_total_transferred(acts) == spec_sum(balances)
            &&& forall|i: int|
                0 <= i < acts.len() ==> (#[trigger] acts[i] matches Action::Transfer {
                    asset: _,
                    amount,
                    recipient,
                } && recipient == s.config.distribution_addr && amount > 0)
        },
{
    if spec_lp_redeemed(s, balances) is Ok {
        let pool = spec_into_pool(s.reward_token)->Ok_0;
        lemma_transfer_actions_total(pool.pool_assets, balances, s.config.distribution_addr);
        lemma_transfer_actions_shape(pool.pool_assets, balances, s.config.distribution_addr);
    }
}

/// Every action the sink builds is a positive transfer to the requested
/// recipient.
proof fn lemma_transfer_actions_shape(assets: Seq<String>, balances: Seq<u128>, recipient: String)
    requires
        assets.len() == balances.len(),
    ensures
        forall|i: int|
            0 <= i < spec_transfer_actions(assets, balances, recipient).len()
                ==> (#[trigger] spec_transfer_actions(assets, balances, recipient)[i]
                matches Action::Transfer { asset: _, amount, recipient: to } && to == recipient
                && amount > 0),
    decreases assets.len(),
{
    if assets.len() > 0 {
        lemma_transfer_actions_shape(assets.drop_last(), balances.drop_last(), recipient);
    }
}

/// Flush before change: a configuration update that changes the emission
/// rate or the start time, made while a distribution is possible, pays out
/// exactly what a `Distribute` under the old configuration would have paid
/// at that instant, advances the clock to that instant, and only then
/// stores the new configuration.
pub proof fn lemma_flush_before_change(
    s: StateModel,
    now: u64,
    updates: ConfigUpdates,
    q: VaultSnapshot,
)
    requires
        spec_check(spec_merged(s.config, updates), true) matches Ok(new_config) && (
        new_config.emission_per_second != s.config.emission_per_second
            || new_config.rewards_start_time != s.config.rewards_start_time),
        spec_distribute(s, now, q) is Ok,
    ensures
        spec_update_config(s, now, true, updates, true, q) matches Ok(out) && (
        spec_distribute(s, now, q) matches Ok(flushed) && {
            &&& out.0 == spec_check(spec_merged(s.config, updates), true)->Ok_0
            &&& out.1 == Some(now)
            &&& out.2 == flushed.1
        }),
{
    lemma_distribute_advances_clock(s, now, q);
}

/// A configuration update that touches neither the emission rate nor the
/// start time distributes nothing.
pub proof fn lemma_no_flush_without_change(
    s: StateModel,
    now: u64,
    updates: ConfigUpdates,
    q: VaultSnapshot,
)
    requires
        spec_check(spec_merged(s.config, updates), true) matches Ok(new_config)
            && new_config.emission_per_second == s.config.emission_per_second
            && new_config.rewards_start_time == s.config.rewards_start_time,
    ensures
        spec_update_config(s, now, true, updates, true, q) == Ok::<
            (Config, Option<u64>, Seq<Action>),
            ContractError,
        >((spec_check(spec_merged(s.config, updates), true)->Ok_0, None, Seq::empty())),
{
}

/// Replaying the terminal continuation against unchanged (already drained)
/// balances is a no-op: with every balance zero it issues no action and
/// transfers nothing.
pub proof fn lemma_lp_redeemed_replay_is_noop(s: StateModel, balances: Seq<u128>)
    requires
        spec_into_pool(s.reward_token) matches Ok(pool) ==> balances.len()
            == pool.pool_assets.len(),
        forall|i: int| 0 <= i < balances.len() ==> balances[i] == 0,
    ensures
        spec_lp_redeemed(s, balances) matches Ok(acts) ==> acts =~= Seq::<Action>::empty()
            && spec_total_transferred(acts) == 0,
{
    if spec_lp_redeemed(s, balances) is Ok {
        let pool = spec_into_pool(s.reward_token)->Ok_0;
        lemma_transfer_actions_all_zero(pool.pool_assets, balances, s.config.distribution_addr);
    }
}

/// With every balance zero the sink builds no transfer at all.
proof fn lemma_transfer_actions_all_zero(
    assets: Seq<String>,
    balances: Seq<u128>,
    recipient: String,
)
    requires
        assets.len() == balances.len(),
        forall|i: int| 0 <= i < balances.len() ==> balances[i] == 0,
    ensures
        spec_transfer_actions(assets, balances, recipient) =~= Seq::<Action>::empty(),
    decreases assets.len(),
{
    if assets.len() > 0 {
        lemma_transfer_actions_all_zero(assets.drop_last(), balances.drop_last(), recipient);
    }
}

/// Replaying the middle continuation after its withdrawal already ran
/// (the pool-share balance is back to zero) issues only a zero-amount
/// withdrawal and a continuation: a harmless repeat that transfers
/// nothing.
pub proof fn lemma_vault_redeemed_replay_is_noop(s: StateModel)
    ensures
        spec_vault_tokens_redeemed(s, 0) matches Ok(acts) ==> {
            &&& acts =~= seq![
                Action::WithdrawLiquidity { amount: 0 },
                Action::Callback(crate::msg::InternalMsg::LpRedeemed {}),
            ]
            &&& spec_total_transferred(acts) == 0
        },
{
    if spec_vault_tokens_redeemed(s, 0) is Ok {
        let acts = spec_vault_tokens_redeemed(s, 0)->Ok_0;
        assert(acts.len() == 2);
        let first = acts.drop_last();
        assert(acts.last() == Action::Callback(crate::msg::InternalMsg::LpRedeemed {}));
        assert(first.last() == Action::WithdrawLiquidity { amount: 0 });
        assert(first.drop_last() =~= Seq::<Action>::empty());
        assert(spec_total_transferred(Seq::<Action>::empty()) == 0);
        assert(spec_total_transferred(first) == 0);
        assert(spec_total_transferred(acts) == 0);
    }
}

} // verus!
