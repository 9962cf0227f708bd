use price_feed::feed::contract::{execute, instantiate};
use price_feed::feed::errors::ContractError;
use price_feed::feed::msg::{ExecuteMsg, InstantiateMsg};
use price_feed::feed::rotation::select;
use price_feed::feed::state::FeedState;

const BLOCK_TIME: u64 = 1000;

fn setup_with_relayers(relayers: Vec<&str>) -> FeedState {
    let (mut state, _res) = instantiate("owner".to_string(), InstantiateMsg { ping_threshold: 60 });
    execute(
        &mut state,
        &"owner".to_string(),
        BLOCK_TIME,
        ExecuteMsg::AddRelayers {
            relayers: relayers.iter().map(|r| r.to_string()).collect(),
        },
    )
    .unwrap();
    state
}

fn ping(state: &mut FeedState, relayer: &str, at: u64) {
    execute(state, &relayer.to_string(), at, ExecuteMsg::RelayerPing {}).unwrap();
}

#[test]
fn rotation_fairness_round_robin() {
    let mut state = setup_with_relayers(vec!["a", "b", "c"]);
    ping(&mut state, "a", BLOCK_TIME);
    ping(&mut state, "b", BLOCK_TIME);
    ping(&mut state, "c", BLOCK_TIME);

    assert_eq!(select(&mut state, BLOCK_TIME).unwrap(), "a");
    assert_eq!(select(&mut state, BLOCK_TIME).unwrap(), "b");
    assert_eq!(select(&mut state, BLOCK_TIME).unwrap(), "c");
    // the fourth selection wraps back to the first member
    assert_eq!(select(&mut state, BLOCK_TIME).unwrap(), "a");
}

#[test]
fn rotation_skips_stale_relayers() {
    let mut state = setup_with_relayers(vec!["a", "b", "c"]);
    // only b pinged recently; a and c are stale beyond the threshold
    ping(&mut state, "a", BLOCK_TIME - 120);
    ping(&mut state, "b", BLOCK_TIME);
    ping(&mut state, "c", BLOCK_TIME - 120);

    assert_eq!(select(&mut state, BLOCK_TIME).unwrap(), "b");
    assert_eq!(select(&mut state, BLOCK_TIME).unwrap(), "b");
    assert_eq!(select(&mut state, BLOCK_TIME).unwrap(), "b");
}

#[test]
fn rotation_exhaustion_leaves_cursor() {
    let mut state = setup_with_relayers(vec!["a", "b", "c"]);
    ping(&mut state, "a", BLOCK_TIME);
    assert_eq!(select(&mut state, BLOCK_TIME).unwrap(), "a");
    assert_eq!(state.last_relayer, Some("a".to_string()));

    // far in the future every ping is stale
    let later = BLOCK_TIME + 10_000;
    let err = select(&mut state, later).unwrap_err();
    assert_eq!(err, ContractError::RelayerNotFound {});
    assert_eq!(state.last_relayer, Some("a".to_string()));
}

#[test]
fn rotation_with_no_members_fails() {
    let (mut state, _res) = instantiate("owner".to_string(), InstantiateMsg { ping_threshold: 60 });
    let err = select(&mut state, BLOCK_TIME).unwrap_err();
    assert_eq!(err, ContractError::RelayerNotFound {});
    assert_eq!(state.last_relayer, None);
}

#[test]
fn never_pinged_relayer_is_live_early() {
    // with no ping the last-alive time counts as zero, so a block time
    // within the threshold still selects it
    let mut state = setup_with_relayers(vec!["a"]);
    assert_eq!(select(&mut state, 60).unwrap(), "a");
}
