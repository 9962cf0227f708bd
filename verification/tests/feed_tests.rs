use price_feed::feed::contract::{
    execute, execute_add_relayers, instantiate, query, query_is_relayer,
};
use price_feed::feed::errors::ContractError;
use price_feed::feed::msg::{ExecuteMsg, InstantiateMsg, QueryAnswer, QueryMsg};
use price_feed::feed::rotation::select_relayer;
use price_feed::feed::state::FeedState;

// The host's mock block time, in seconds.
const BLOCK_TIME: u64 = 1571797419;

fn default_init_msg() -> InstantiateMsg {
    InstantiateMsg { ping_threshold: 60 }
}

fn setup(sender: &str) -> FeedState {
    let (state, _res) = instantiate(sender.to_string(), default_init_msg());
    state
}

fn is_relayers(state: &FeedState, relayers: Vec<String>) -> Vec<bool> {
    relayers
        .iter()
        .map(|r| query_is_relayer(state, r.as_str()))
        .collect()
}

fn setup_relayers(sender: &str, relayers: Vec<String>) -> FeedState {
    let mut state = setup(sender);
    let msg = ExecuteMsg::AddRelayers { relayers };
    execute(&mut state, &sender.to_string(), BLOCK_TIME, msg).unwrap();
    state
}

fn execute_ping(state: &mut FeedState, relayers: Vec<String>) {
    for relayer in relayers {
        let res = execute(state, &relayer, BLOCK_TIME, ExecuteMsg::RelayerPing {});
        assert!(res.is_ok());
    }
}

#[test]
fn can_instantiate() {
    let (state, res) = instantiate("owner".to_string(), default_init_msg());
    assert_eq!(0, res.events.len() + res.attributes.len());
    assert_eq!(state.admin, "owner".to_string());
}

#[test]
fn add_relayers_by_owner() {
    let mut state = setup("owner");
    let relayers_to_add: Vec<String> = vec![
        String::from("relayer_1"),
        String::from("relayer_2"),
        String::from("relayer_3"),
    ];
    let msg = ExecuteMsg::AddRelayers {
        relayers: relayers_to_add.clone(),
    };
    execute(&mut state, &"owner".to_string(), BLOCK_TIME, msg).unwrap();
    assert_eq!(is_relayers(&state, relayers_to_add), [true, true, true]);
}

#[test]
fn add_relayers_by_other() {
    let mut state = setup("owner");
    let msg = ExecuteMsg::AddRelayers {
        relayers: vec![String::from("relayer_1")],
    };
    let err = execute(&mut state, &"user".to_string(), BLOCK_TIME, msg).unwrap_err();
    assert_eq!(err, ContractError::UnauthorizedAdmin {});
}

#[test]
fn remove_relayers_by_owner() {
    let relayers_list = vec![
        String::from("relayer_1"),
        String::from("relayer_2"),
        String::from("relayer_3"),
    ];
    let mut state = setup_relayers("owner", relayers_list.clone());
    let relayers_to_remove = relayers_list[..2].to_vec();
    let msg = ExecuteMsg::RemoveRelayers {
        relayers: relayers_to_remove,
    };
    execute(&mut state, &"owner".to_string(), BLOCK_TIME, msg).unwrap();
    assert_eq!(is_relayers(&state, relayers_list), [false, false, true]);
}

#[test]
fn remove_relayers_by_other() {
    let relayers = vec![String::from("relayer_1")];
    let mut state = setup_relayers("owner", relayers.clone());
    let msg = ExecuteMsg::RemoveRelayers { relayers };
    let err = execute(&mut state, &"user".to_string(), BLOCK_TIME, msg).unwrap_err();
    assert_eq!(err, ContractError::UnauthorizedAdmin {});
}

#[test]
fn test_select_relayer() {
    let mut state = setup("owner");
    let relayers_to_add: Vec<String> = vec![String::from("relayer_1")];
    let msg = ExecuteMsg::AddRelayers {
        relayers: relayers_to_add,
    };
    execute(&mut state, &"owner".to_string(), BLOCK_TIME, msg).unwrap();

    // ping updates for relayer_1
    let blocktime = BLOCK_TIME;
    execute(
        &mut state,
        &"relayer_1".to_string(),
        blocktime,
        ExecuteMsg::RelayerPing {},
    )
    .unwrap();

    // pingcheck
    let check = query(
        &state,
        QueryMsg::LastPing {
            relayer: "relayer_1".to_string(),
        },
    )
    .unwrap();
    assert_eq!(check, QueryAnswer::LastPing(blocktime));

    let res = select_relayer(&state, blocktime).unwrap();
    assert_eq!("relayer_1", res);

    // check again to see if the relayer is the same
    let res = select_relayer(&state, blocktime).unwrap();
    assert_eq!("relayer_1", res);
}

#[test]
fn test_execute_demand_price() {
    let mut state = setup("owner");

    // Switch price requests on.
    execute(
        &mut state,
        &"owner".to_string(),
        BLOCK_TIME,
        ExecuteMsg::ChangeTrigger { trigger: true },
    )
    .unwrap();
    assert!(state.trigger);

    let relayers_to_add: Vec<String> = vec![
        String::from("relayer_1"),
        String::from("relayer_2"),
        String::from("relayer_3"),
    ];
    execute(
        &mut state,
        &"owner".to_string(),
        BLOCK_TIME,
        ExecuteMsg::AddRelayers {
            relayers: relayers_to_add.clone(),
        },
    )
    .unwrap();
    execute_ping(&mut state, relayers_to_add);

    // pingcheck
    let check = query(
        &state,
        QueryMsg::LastPing {
            relayer: "relayer_1".to_string(),
        },
    )
    .unwrap();
    assert_eq!(check, QueryAnswer::LastPing(BLOCK_TIME));

    // setup request msg
    let symbol = "TEST".to_string();
    let resolve_time: u64 = 10;
    let callback_sig = "callback_signature".to_string();
    let callback_data = b"callback_data".to_vec();

    let mut expected_request_id = "sender_".to_owned();
    expected_request_id.push_str(&BLOCK_TIME.to_string());

    let relay_demand = ExecuteMsg::RequestRate {
        symbol: symbol.clone(),
        resolve_time,
        callback_sig: callback_sig.clone(),
        callback_data: callback_data.clone(),
    };

    let res1 = execute(
        &mut state,
        &"sender".to_string(),
        BLOCK_TIME,
        relay_demand_clone(&relay_demand),
    );
    assert!(res1.is_ok());
    assert_eq!(state.last_relayer, Some("relayer_1".to_string()));

    // next relayer should change
    let res2 = execute(
        &mut state,
        &"sender".to_string(),
        BLOCK_TIME,
        relay_demand_clone(&relay_demand),
    );
    assert!(res2.is_ok());
    assert_eq!(state.last_relayer, Some("relayer_2".to_string()));

    // Verify the emitted event
    let found = res1.unwrap().events.iter().any(|event| {
        let total_events = event.attributes.len();
        assert_eq!(total_events, 8);

        let attrs = &event.attributes;
        attrs
            .iter()
            .all(|attr| match (attr.key.as_str(), attr.value.as_str()) {
                ("request_id", value) => value == expected_request_id,
                ("relayer_address", value) => value == "relayer_1",
                ("event_contract_address", value) => value == "sender",
                ("symbol", value) => value == symbol,
                ("resolve_time", value) => value == "10",
                ("callback_data", value) => value == "Y2FsbGJhY2tfZGF0YQ==",
                ("callback_signature", value) => value == callback_sig,
                ("request_type", value) => value == "request_rate",
                _ => {
                    println!("Unexpected attribute: {}", attr.key.as_str());
                    false
                }
            })
    });
    assert!(found);
}

fn relay_demand_clone(msg: &ExecuteMsg) -> ExecuteMsg {
    match msg {
        ExecuteMsg::RequestRate {
            symbol,
            resolve_time,
            callback_sig,
            callback_data,
        } => ExecuteMsg::RequestRate {
            symbol: symbol.clone(),
            resolve_time: *resolve_time,
            callback_sig: callback_sig.clone(),
            callback_data: callback_data.clone(),
        },
        _ => panic!("not a rate request"),
    }
}

#[test]
fn attempt_query_config() {
    let state = setup("owner");
    assert_eq!(
        query(&state, QueryMsg::Admin {}).unwrap(),
        QueryAnswer::Admin("owner".to_string())
    );
}

#[test]
fn attempt_query_is_relayer() {
    let relayer = String::from("relayer");
    let state = setup_relayers("owner", vec![relayer.clone()]);
    assert!(query_is_relayer(&state, relayer.as_str()));
    assert_eq!(query_is_relayer(&state, "not_a_relayer"), false);
}

#[test]
fn attempt_query_ping_threshold() {
    let state = setup("owner");
    let res = query(&state, QueryMsg::PingThreshold {});
    assert!(res.is_ok());
    assert_eq!(res.unwrap(), QueryAnswer::PingThreshold(60));
}

#[test]
fn attempt_query_last_ping() {
    let relayer = String::from("relayer");
    let blocktime = BLOCK_TIME;
    let mut state = setup_relayers("owner", vec![relayer.clone()]);
    execute_ping(&mut state, vec![relayer.clone()]);

    let ping = query(&state, QueryMsg::LastPing { relayer });
    assert!(ping.is_ok());
    assert_eq!(ping.unwrap(), QueryAnswer::LastPing(blocktime));
}

#[test]
fn ping_by_non_relayer_fails() {
    let mut state = setup("owner");
    let err = execute(
        &mut state,
        &"stranger".to_string(),
        BLOCK_TIME,
        ExecuteMsg::RelayerPing {},
    )
    .unwrap_err();
    assert_eq!(
        err,
        ContractError::UnauthorizedRelayer {
            msg: "stranger".to_string()
        }
    );
}

#[test]
fn request_fails_while_trigger_off() {
    let mut state = setup_relayers("owner", vec!["relayer_1".to_string()]);
    let err = execute(
        &mut state,
        &"sender".to_string(),
        BLOCK_TIME,
        ExecuteMsg::RequestRate {
            symbol: "TEST".to_string(),
            resolve_time: 10,
            callback_sig: "sig".to_string(),
            callback_data: vec![],
        },
    )
    .unwrap_err();
    assert_eq!(err, ContractError::TriggerRequestDisabled {});
}

#[test]
fn request_fails_with_no_live_relayer() {
    let mut state = setup_relayers("owner", vec!["relayer_1".to_string()]);
    execute(
        &mut state,
        &"owner".to_string(),
        BLOCK_TIME,
        ExecuteMsg::ChangeTrigger { trigger: true },
    )
    .unwrap();
    // relayer_1 never pinged and the block time is beyond the threshold.
    let err = execute(
        &mut state,
        &"sender".to_string(),
        BLOCK_TIME,
        ExecuteMsg::RequestRate {
            symbol: "TEST".to_string(),
            resolve_time: 10,
            callback_sig: "sig".to_string(),
            callback_data: vec![],
        },
    )
    .unwrap_err();
    assert_eq!(err, ContractError::RelayerNotFound {});
}

#[test]
fn change_trigger_by_other_fails() {
    let mut state = setup("owner");
    let err = execute(
        &mut state,
        &"user".to_string(),
        BLOCK_TIME,
        ExecuteMsg::ChangeTrigger { trigger: true },
    )
    .unwrap_err();
    assert_eq!(err, ContractError::UnauthorizedAdmin {});
    assert!(!state.trigger);
}

#[test]
fn admin_transfer_by_other_fails() {
    let mut state = setup("owner");
    let err = execute(
        &mut state,
        &"user".to_string(),
        BLOCK_TIME,
        ExecuteMsg::UpdateAdmin {
            admin: "user".to_string(),
        },
    )
    .unwrap_err();
    assert_eq!(err, ContractError::UnauthorizedAdmin {});
    assert_eq!(state.admin, "owner".to_string());
}

#[test]
fn admin_transfer_by_owner() {
    let mut state = setup("owner");
    execute(
        &mut state,
        &"owner".to_string(),
        BLOCK_TIME,
        ExecuteMsg::UpdateAdmin {
            admin: "new_owner".to_string(),
        },
    )
    .unwrap();
    assert_eq!(state.admin, "new_owner".to_string());
    // the old admin lost the role
    let err = execute_add_relayers(&mut state, &"owner".to_string(), vec!["x".to_string()])
        .unwrap_err();
    assert_eq!(err, ContractError::UnauthorizedAdmin {});
}

#[test]
fn query_last_ping_unknown_relayer_fails() {
    let state = setup("owner");
    let err = query(
        &state,
        QueryMsg::LastPing {
            relayer: "ghost".to_string(),
        },
    )
    .unwrap_err();
    assert_eq!(
        err,
        ContractError::NotFound {
            key: "ghost".to_string()
        }
    );
}

#[test]
fn query_median_status_starts_on() {
    let state = setup("owner");
    assert_eq!(
        query(&state, QueryMsg::MedianStatus {}).unwrap(),
        QueryAnswer::MedianStatus(true)
    );
}

#[test]
fn adding_present_relayer_is_idempotent() {
    let mut state = setup_relayers("owner", vec!["relayer_1".to_string()]);
    execute(
        &mut state,
        &"owner".to_string(),
        BLOCK_TIME,
        ExecuteMsg::AddRelayers {
            relayers: vec!["relayer_1".to_string()],
        },
    )
    .unwrap();
    assert!(query_is_relayer(&state, "relayer_1"));
    assert_eq!(state.relayers.entries.len(), 1);
}

#[test]
fn removing_absent_relayer_is_noop() {
    let mut state = setup_relayers("owner", vec!["relayer_1".to_string()]);
    execute(
        &mut state,
        &"owner".to_string(),
        BLOCK_TIME,
        ExecuteMsg::RemoveRelayers {
            relayers: vec!["ghost".to_string()],
        },
    )
    .unwrap();
    assert!(query_is_relayer(&state, "relayer_1"));
    assert!(!query_is_relayer(&state, "ghost"));
}
