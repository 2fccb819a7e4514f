//! Authorization: configuration updates are controller-only, continuations
//! are self-only.

use reward_distributor::config::ConfigUpdates;
use reward_distributor::contract::execute;
use reward_distributor::contract::instantiate;
use reward_distributor::contract::Env;
use reward_distributor::contract::HostSnapshot;
use reward_distributor::contract::MessageInfo;
use reward_distributor::error::ContractError;
use reward_distributor::execute::VaultSnapshot;
use reward_distributor::msg::ExecuteMsg;
use reward_distributor::msg::InstantiateMsg;
use reward_distributor::msg::InternalMsg;
use reward_distributor::msg::RewardInfo;
use reward_distributor::state::Pool;
use reward_distributor::state::RewardType;
use reward_distributor::state::State;
use reward_distributor::state::Vault;

const INIT_TIME: u64 = 1_000_000_000;

fn instantiate_vault_backed(emission_per_second: u128, rewards_start_time: u64) -> State {
    let msg = InstantiateMsg {
        owner: "admin".to_string(),
        emission_per_second,
        reward_token_info: RewardInfo::VaultAddr("reward_vault".to_string()),
        distribution_addr: "treasury".to_string(),
        rewards_start_time,
    };
    let reward_token = RewardType::Vault {
        vault: Vault {
            addr: "reward_vault".to_string(),
            vault_token: "factory/reward_vault/token".to_string(),
        },
        pool: Pool {
            pair_addr: "astroport_pair".to_string(),
            lp_token_addr: "astroport_lp_token".to_string(),
            pool_assets: vec!["uaxl".to_string(), "untrn".to_string()],
        },
    };
    instantiate(msg, reward_token, true, INIT_TIME).unwrap()
}

fn env_at(block_time: u64) -> Env {
    Env { contract_address: "reward_distributor".to_string(), block_time }
}

fn host_snapshot(sender_is_owner: bool) -> HostSnapshot {
    HostSnapshot {
        sender_is_owner,
        updated_addr_valid: true,
        vault: VaultSnapshot { base_token_equivalent: 0, vault_token_balance: 0 },
        lp_token_balance: 0,
        pool_asset_balances: vec![0, 0],
    }
}

fn emission_update(new_rate: u128) -> ExecuteMsg {
    ExecuteMsg::UpdateConfig {
        updates: ConfigUpdates {
            emission_per_second: Some(new_rate),
            distribution_addr: None,
            rewards_start_time: None,
        },
    }
}

#[test]
fn update_config_can_only_be_called_by_admin() {
    let state = instantiate_vault_backed(100u128, INIT_TIME);
    let env = env_at(INIT_TIME + 1);

    // A non-admin caller is rejected outright.
    let user = MessageInfo { sender: "user".to_string() };
    let err = execute(&state, &env, &user, emission_update(420u128), &host_snapshot(false))
        .unwrap_err();
    assert_eq!(err, ContractError::Unauthorized {});

    // The admin's update goes through.
    let admin = MessageInfo { sender: "admin".to_string() };
    let transition = execute(&state, &env, &admin, emission_update(420u128), &host_snapshot(true))
        .unwrap();
    assert_eq!(transition.new_config.unwrap().emission_per_second, 420u128);
}

#[test]
fn internal_msg_can_only_be_called_by_contract() {
    let state = instantiate_vault_backed(100u128, INIT_TIME);
    let env = env_at(INIT_TIME + 1);
    let admin = MessageInfo { sender: "admin".to_string() };

    let err = execute(
        &state,
        &env,
        &admin,
        ExecuteMsg::Internal(InternalMsg::LpRedeemed {}),
        &host_snapshot(true),
    )
    .unwrap_err();
    assert_eq!(err, ContractError::Unauthorized {});

    let err = execute(
        &state,
        &env,
        &admin,
        ExecuteMsg::Internal(InternalMsg::VaultTokensRedeemed {}),
        &host_snapshot(true),
    )
    .unwrap_err();
    assert_eq!(err, ContractError::Unauthorized {});

    // From the contract's own address the continuation is accepted.
    let own = MessageInfo { sender: "reward_distributor".to_string() };
    let transition = execute(
        &state,
        &env,
        &own,
        ExecuteMsg::Internal(InternalMsg::VaultTokensRedeemed {}),
        &host_snapshot(false),
    )
    .unwrap();
    assert!(transition.new_config.is_none());
    assert!(transition.new_last_distributed.is_none());
    assert_eq!(transition.actions.len(), 2);
}
