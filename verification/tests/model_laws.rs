//! Concrete scenarios for the laws the library proves: the monotonic
//! clock, exactly-once distribution per instant, conservation, the
//! flush-before-change rule and idempotent continuations.

use reward_distributor::accrual::accrued_amount;
use reward_distributor::config::Config;
use reward_distributor::contract::execute;
use reward_distributor::contract::Env;
use reward_distributor::contract::HostSnapshot;
use reward_distributor::contract::MessageInfo;
use reward_distributor::error::ContractError;
use reward_distributor::execute::execute_distribute;
use reward_distributor::execute::execute_internal_lp_redeemed;
use reward_distributor::execute::execute_internal_vault_tokens_redeemed;
use reward_distributor::execute::VaultSnapshot;
use reward_distributor::msg::Action;
use reward_distributor::msg::ExecuteMsg;
use reward_distributor::msg::InternalMsg;
use reward_distributor::sink::transfer_actions;
use reward_distributor::state::Pool;
use reward_distributor::state::RewardType;
use reward_distributor::state::State;

const T0: u64 = 1_000_000_000;

fn coin_state(rate: u128, start: u64) -> State {
    State {
        config: Config {
            emission_per_second: rate,
            distribution_addr: "treasury".to_string(),
            rewards_start_time: start,
        },
        reward_token: RewardType::Coin("untrn".to_string()),
        last_distributed: T0,
    }
}

fn lp_state(rate: u128, start: u64) -> State {
    State {
        config: Config {
            emission_per_second: rate,
            distribution_addr: "treasury".to_string(),
            rewards_start_time: start,
        },
        reward_token: RewardType::LP(Pool {
            pair_addr: "astroport_pair".to_string(),
            lp_token_addr: "astroport_lp_token".to_string(),
            pool_assets: vec!["uaxl".to_string(), "untrn".to_string()],
        }),
        last_distributed: T0,
    }
}

fn no_vault() -> VaultSnapshot {
    VaultSnapshot { base_token_equivalent: 0, vault_token_balance: 0 }
}

#[test]
fn accrual_formula_exact_values() {
    // rate = 100, start = T0: five seconds before the start nothing has
    // started; five seconds after it, 500 units are due.
    assert_eq!(
        accrued_amount(100, T0, T0, T0 - 5),
        Err(ContractError::RewardsNotStarted {})
    );
    assert_eq!(accrued_amount(100, T0, T0, T0 + 5), Ok(500));
    // The accrual window opens at the later of `last` and `start`.
    assert_eq!(accrued_amount(100, T0 + 3, T0, T0 + 5), Ok(200));
    assert_eq!(accrued_amount(100, T0, T0 + 4, T0 + 5), Ok(100));
    // A stale `now` below `last` has nothing to pay.
    assert_eq!(
        accrued_amount(100, T0 + 10, T0, T0 + 5),
        Err(ContractError::NoRewardsToDistribute {})
    );
    assert_eq!(
        accrued_amount(100, T0, T0, T0),
        Err(ContractError::AlreadyDistributedThisInstant {})
    );
    assert_eq!(
        accrued_amount(u128::MAX, T0, T0, T0 + 2),
        Err(ContractError::ArithmeticOverflow {})
    );
}

#[test]
fn clock_is_monotonic_and_tracks_last_success() {
    let mut state = coin_state(10, T0);
    let mut clocks = vec![state.last_distributed];

    for now in [T0 + 3, T0 + 1, T0 + 3, T0 + 9] {
        match execute_distribute(&state, now, &no_vault()) {
            Ok((new_last, _)) => {
                assert_eq!(new_last, now);
                state.last_distributed = new_last;
            }
            Err(_) => {}
        }
        clocks.push(state.last_distributed);
    }
    // Non-decreasing throughout; the calls at T0+1 (behind the clock) and
    // the repeat of T0+3 failed, so the clock ends at the last success.
    assert!(clocks.windows(2).all(|w| w[0] <= w[1]));
    assert_eq!(clocks, vec![T0, T0 + 3, T0 + 3, T0 + 3, T0 + 9]);
}

#[test]
fn distribute_pays_exactly_once_per_instant() {
    let mut state = coin_state(100, T0);
    let now = T0 + 5;
    let (new_last, actions) = execute_distribute(&state, now, &no_vault()).unwrap();
    assert_eq!(
        actions,
        vec![Action::Transfer {
            asset: "untrn".to_string(),
            amount: 500,
            recipient: "treasury".to_string(),
        }]
    );
    state.last_distributed = new_last;

    // The second call at the same instant pays nothing.
    let err = execute_distribute(&state, now, &no_vault()).unwrap_err();
    assert_eq!(err, ContractError::AlreadyDistributedThisInstant {});
}

#[test]
fn coin_pipeline_conserves_accrued_amount() {
    // For a coin-backed source the pipeline is one stage: the transferred
    // total equals the accrued amount exactly.
    let state = coin_state(250, T0);
    let (_, actions) = execute_distribute(&state, T0 + 4, &no_vault()).unwrap();
    let total: u128 = actions
        .iter()
        .map(|a| match a {
            Action::Transfer { amount, .. } => *amount,
            _ => 0,
        })
        .sum();
    assert_eq!(total, 1000);
}

#[test]
fn lp_pipeline_transfers_whole_balances() {
    // The terminal stage transfers exactly the balances the host reports,
    // dropping zero entries.
    let state = lp_state(100, T0);
    let actions = execute_internal_lp_redeemed(&state, &vec![1234, 0]).unwrap();
    assert_eq!(
        actions,
        vec![Action::Transfer {
            asset: "uaxl".to_string(),
            amount: 1234,
            recipient: "treasury".to_string(),
        }]
    );
}

#[test]
fn flush_before_change_pays_old_rate() {
    // rate R1 = 100 for 7 seconds, then the rate changes to R2 = 999: the
    // update pays out the R1-priced accrual before the new rate exists.
    let state = coin_state(100, T0);
    let env = Env { contract_address: "reward_distributor".to_string(), block_time: T0 + 7 };
    let admin = MessageInfo { sender: "admin".to_string() };
    let msg = ExecuteMsg::UpdateConfig {
        updates: reward_distributor::config::ConfigUpdates {
            emission_per_second: Some(999),
            distribution_addr: None,
            rewards_start_time: None,
        },
    };
    let host = HostSnapshot {
        sender_is_owner: true,
        updated_addr_valid: true,
        vault: no_vault(),
        lp_token_balance: 0,
        pool_asset_balances: vec![],
    };
    let transition = execute(&state, &env, &admin, msg, &host).unwrap();
    assert_eq!(
        transition.actions,
        vec![Action::Transfer {
            asset: "untrn".to_string(),
            amount: 700,
            recipient: "treasury".to_string(),
        }]
    );
    assert_eq!(transition.new_config.unwrap().emission_per_second, 999);
    assert_eq!(transition.new_last_distributed, Some(T0 + 7));
}

#[test]
fn failed_distribute_leaves_clock_so_retry_succeeds() {
    // rate = 100, start = T0, vault-backed. Too early fails; with an
    // insufficient balance it fails without advancing the clock, so after
    // a deposit the retry at the very same instant succeeds and issues
    // exactly one redemption plus one continuation.
    let state = State {
        config: Config {
            emission_per_second: 100,
            distribution_addr: "treasury".to_string(),
            rewards_start_time: T0,
        },
        reward_token: RewardType::Vault {
            vault: reward_distributor::state::Vault {
                addr: "reward_vault".to_string(),
                vault_token: "factory/reward_vault/token".to_string(),
            },
            pool: Pool {
                pair_addr: "astroport_pair".to_string(),
                lp_token_addr: "astroport_lp_token".to_string(),
                pool_assets: vec!["uaxl".to_string(), "untrn".to_string()],
            },
        },
        last_distributed: T0,
    };

    let err = execute_distribute(&state, T0 - 5, &no_vault()).unwrap_err();
    assert_eq!(err, ContractError::RewardsNotStarted {});

    let broke = VaultSnapshot { base_token_equivalent: 5, vault_token_balance: 0 };
    let err = execute_distribute(&state, T0 + 5, &broke).unwrap_err();
    assert_eq!(
        err,
        ContractError::InsufficientVaultTokenBalance {
            vault_token_balance: 0,
            redeem_amount: 500,
        }
    );

    // Nothing was stored by the failures: the same `now` is still payable.
    let funded = VaultSnapshot { base_token_equivalent: 5, vault_token_balance: 10_000_000 };
    let (new_last, actions) = execute_distribute(&state, T0 + 5, &funded).unwrap();
    assert_eq!(new_last, T0 + 5);
    assert_eq!(
        actions,
        vec![
            Action::RedeemVaultTokens { amount: 500 },
            Action::Callback(InternalMsg::VaultTokensRedeemed {}),
        ]
    );
}

#[test]
fn replayed_continuations_are_noops() {
    let state = lp_state(100, T0);

    // Replaying the terminal stage after its transfers drained the
    // balances issues nothing.
    let actions = execute_internal_lp_redeemed(&state, &vec![0, 0]).unwrap();
    assert!(actions.is_empty());

    // Replaying the middle stage after its withdrawal ran issues a
    // harmless zero-amount withdrawal and no transfer.
    let actions = execute_internal_vault_tokens_redeemed(&state, 0).unwrap();
    assert_eq!(
        actions,
        vec![
            Action::WithdrawLiquidity { amount: 0 },
            Action::Callback(InternalMsg::LpRedeemed {}),
        ]
    );
}

#[test]
fn continuations_fail_for_coin_sources() {
    let state = coin_state(100, T0);
    assert_eq!(
        execute_internal_vault_tokens_redeemed(&state, 5).unwrap_err(),
        ContractError::CoinRewardHasNoPool {}
    );
    assert_eq!(
        execute_internal_lp_redeemed(&state, &vec![]).unwrap_err(),
        ContractError::CoinRewardHasNoPool {}
    );
    assert_eq!(
        RewardType::Coin("untrn".to_string()).into_pool().unwrap_err(),
        ContractError::CoinRewardHasNoPool {}
    );
}

#[test]
fn sink_drops_zero_balances() {
    let assets = vec!["uaxl".to_string(), "untrn".to_string(), "uusd".to_string()];
    let balances = vec![0u128, 42u128, 0u128];
    let recipient = "treasury".to_string();
    let actions = transfer_actions(&assets, &balances, &recipient);
    assert_eq!(
        actions,
        vec![Action::Transfer {
            asset: "untrn".to_string(),
            amount: 42,
            recipient: "treasury".to_string(),
        }]
    );
}

#[test]
fn distribute_via_dispatch_advances_clock() {
    let state = coin_state(100, T0);
    let env = Env { contract_address: "reward_distributor".to_string(), block_time: T0 + 5 };
    let anyone = MessageInfo { sender: "anyone".to_string() };
    let host = HostSnapshot {
        sender_is_owner: false,
        updated_addr_valid: true,
        vault: no_vault(),
        lp_token_balance: 0,
        pool_asset_balances: vec![],
    };
    let transition = execute(&state, &env, &anyone, ExecuteMsg::Distribute {}, &host).unwrap();
    assert!(transition.new_config.is_none());
    assert_eq!(transition.new_last_distributed, Some(T0 + 5));
    assert_eq!(transition.actions.len(), 1);
}
