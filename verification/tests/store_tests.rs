use price_feed::feed::contract::{execute, instantiate};
use price_feed::feed::errors::ContractError;
use price_feed::feed::msg::{ExecuteMsg, InstantiateMsg};
use price_feed::feed::pair::{pair_rate, pair_rates_bulk};
use price_feed::feed::refstore::{
    read, read_bulk, relay, relay_deviation, relay_median, set_median_status,
};
use price_feed::feed::state::{FeedState, RefRecord};
use price_feed::feed::version::check_migration;
use price_feed::feed::msg::MigrateMsg;
use price_feed::feed::version::migrate;

const BLOCK_TIME: u64 = 1000;
const RELAYER: &str = "relayer_1";

fn setup() -> FeedState {
    let (mut state, _res) = instantiate("owner".to_string(), InstantiateMsg { ping_threshold: 60 });
    execute(
        &mut state,
        &"owner".to_string(),
        BLOCK_TIME,
        ExecuteMsg::AddRelayers {
            relayers: vec![RELAYER.to_string()],
        },
    )
    .unwrap();
    state
}

fn relay_one(state: &mut FeedState, symbol: &str, rate: u64, resolve_time: u64, guarded: bool) {
    relay(
        state,
        &RELAYER.to_string(),
        vec![(symbol.to_string(), rate)],
        resolve_time,
        7,
        guarded,
    )
    .unwrap();
}

#[test]
fn monotonicity_out_of_order_submissions() {
    let mut state = setup();
    relay_one(&mut state, "BTC", 5, 10, true);
    relay_one(&mut state, "BTC", 9, 5, true);
    relay_one(&mut state, "BTC", 7, 20, true);
    let rec = read(&state, "BTC").unwrap();
    assert_eq!(rec.rate, 7);
    assert_eq!(rec.resolve_time, 20);
}

#[test]
fn guarded_relay_skips_equal_resolve_time() {
    let mut state = setup();
    relay_one(&mut state, "BTC", 5, 10, true);
    relay_one(&mut state, "BTC", 9, 10, true);
    let rec = read(&state, "BTC").unwrap();
    assert_eq!(rec.rate, 5);
    assert_eq!(rec.resolve_time, 10);
}

#[test]
fn force_relay_bypasses_guard() {
    let mut state = setup();
    relay_one(&mut state, "BTC", 100, 100, true);
    relay_one(&mut state, "BTC", 1, 1, false);
    let rec = read(&state, "BTC").unwrap();
    assert_eq!(rec.rate, 1);
    assert_eq!(rec.resolve_time, 1);
}

#[test]
fn relay_by_non_relayer_fails() {
    let mut state = setup();
    let err = relay(
        &mut state,
        &"stranger".to_string(),
        vec![("BTC".to_string(), 5)],
        10,
        7,
        true,
    )
    .unwrap_err();
    assert_eq!(
        err,
        ContractError::UnauthorizedRelayer {
            msg: "stranger".to_string()
        }
    );
    assert!(read(&state, "BTC").is_err());
}

#[test]
fn read_usd_virtual_record() {
    let state = setup();
    let rec = read(&state, "USD").unwrap();
    assert_eq!(
        rec,
        RefRecord {
            rate: 1_000_000_000,
            resolve_time: u64::MAX,
            request_id: 0,
        }
    );
}

#[test]
fn read_unknown_symbol_fails() {
    let state = setup();
    let err = read(&state, "ETH").unwrap_err();
    assert_eq!(
        err,
        ContractError::NotFound {
            key: "ETH".to_string()
        }
    );
}

#[test]
fn read_bulk_aborts_on_first_missing() {
    let mut state = setup();
    relay_one(&mut state, "BTC", 42, 10, true);
    let ok = read_bulk(&state, &vec!["BTC".to_string(), "USD".to_string()]).unwrap();
    assert_eq!(ok.len(), 2);
    assert_eq!(ok[0].rate, 42);
    assert_eq!(ok[1].rate, 1_000_000_000);

    let err = read_bulk(
        &state,
        &vec!["BTC".to_string(), "ETH".to_string(), "USD".to_string()],
    )
    .unwrap_err();
    assert_eq!(
        err,
        ContractError::NotFound {
            key: "ETH".to_string()
        }
    );
}

#[test]
fn cross_rate_round_trip() {
    let mut state = setup();
    relay_one(&mut state, "BTC", 19343340000000, 1657363915, true);
    let data = pair_rate(&state, "BTC", "USD").unwrap();
    assert_eq!(data.rate, 19343340000000000000000u128);
    assert_eq!(data.last_updated_base, 1657363915);
    assert_eq!(data.last_updated_quote, u64::MAX);
}

#[test]
fn cross_rate_zero_quote_fails() {
    let mut state = setup();
    relay_one(&mut state, "BTC", 19343340000000, 10, true);
    relay_one(&mut state, "ZERO", 0, 10, true);
    let err = pair_rate(&state, "BTC", "ZERO").unwrap_err();
    assert_eq!(err, ContractError::DivideByZero {});
}

#[test]
fn cross_rate_unknown_base_fails() {
    let state = setup();
    let err = pair_rate(&state, "ETH", "USD").unwrap_err();
    assert_eq!(
        err,
        ContractError::NotFound {
            key: "ETH".to_string()
        }
    );
}

#[test]
fn cross_rate_bulk_aborts_on_first_failure() {
    let mut state = setup();
    relay_one(&mut state, "BTC", 2_000_000_000, 10, true);
    relay_one(&mut state, "ETH", 1_000_000_000, 12, true);
    let ok = pair_rates_bulk(
        &state,
        &vec![
            ("BTC".to_string(), "USD".to_string()),
            ("BTC".to_string(), "ETH".to_string()),
        ],
    )
    .unwrap();
    assert_eq!(ok.len(), 2);
    assert_eq!(ok[0].rate, 2_000_000_000_000_000_000u128);
    assert_eq!(ok[1].rate, 2_000_000_000_000_000_000u128);
    assert_eq!(ok[1].last_updated_quote, 12);

    let err = pair_rates_bulk(
        &state,
        &vec![
            ("BTC".to_string(), "USD".to_string()),
            ("DOGE".to_string(), "USD".to_string()),
        ],
    )
    .unwrap_err();
    assert_eq!(
        err,
        ContractError::NotFound {
            key: "DOGE".to_string()
        }
    );
}

#[test]
fn relay_median_and_deviation_roundtrip() {
    let mut state = setup();
    relay_median(
        &mut state,
        &RELAYER.to_string(),
        vec![("BTC".to_string(), vec![1, 2, 3])],
        10,
        7,
        true,
    )
    .unwrap();
    assert_eq!(state.medians.get("BTC").unwrap().rates, vec![1, 2, 3]);

    relay_deviation(
        &mut state,
        &RELAYER.to_string(),
        vec![("BTC".to_string(), 55)],
        10,
        7,
        true,
    )
    .unwrap();
    assert_eq!(state.deviations.get("BTC").unwrap().rate, 55);
}

#[test]
fn relay_median_while_disabled_fails() {
    let mut state = setup();
    set_median_status(&mut state, &"owner".to_string(), false).unwrap();
    let err = relay_median(
        &mut state,
        &RELAYER.to_string(),
        vec![("BTC".to_string(), vec![1])],
        10,
        7,
        true,
    )
    .unwrap_err();
    assert_eq!(err, ContractError::MedianDisabled {});
}

#[test]
fn set_median_status_by_other_fails() {
    let mut state = setup();
    let err = set_median_status(&mut state, &"user".to_string(), false).unwrap_err();
    assert_eq!(err, ContractError::UnauthorizedAdmin {});
    assert!(state.median_status);
}

#[test]
fn migrate_same_version_succeeds() {
    let state = setup();
    let res = migrate(&state, MigrateMsg {});
    assert!(res.is_ok());
}

#[test]
fn migrate_from_newer_version_fails() {
    let mut state = setup();
    state.contract_version = "9.0.0".to_string();
    let err = migrate(&state, MigrateMsg {}).unwrap_err();
    assert_eq!(
        err,
        ContractError::CannotMigrateVersion {
            previous_version: "9.0.0".to_string()
        }
    );
}

#[test]
fn migrate_from_other_contract_fails() {
    let mut state = setup();
    state.contract_name = "someone-elses-feed".to_string();
    let err = migrate(&state, MigrateMsg {}).unwrap_err();
    assert_eq!(
        err,
        ContractError::CannotMigrate {
            previous_contract: "someone-elses-feed".to_string()
        }
    );
}

#[test]
fn migrate_with_unparsable_stored_version_fails() {
    let mut state = setup();
    state.contract_version = "not-a-version".to_string();
    let err = migrate(&state, MigrateMsg {}).unwrap_err();
    assert_eq!(
        err,
        ContractError::InvalidVersion {
            version: "not-a-version".to_string()
        }
    );
}

#[test]
fn check_migration_compares_triples() {
    let name = "ojo-price-feeds".to_string();
    let stored_version = "1.2.3".to_string();
    assert!(check_migration(&name, &stored_version, (1, 2, 3), "ojo-price-feeds", (1, 2, 3)).is_ok());
    assert!(check_migration(&name, &stored_version, (1, 2, 3), "ojo-price-feeds", (1, 3, 0)).is_ok());
    let err = check_migration(&name, &stored_version, (1, 2, 4), "ojo-price-feeds", (1, 2, 3))
        .unwrap_err();
    assert_eq!(
        err,
        ContractError::CannotMigrateVersion {
            previous_version: "1.2.3".to_string()
        }
    );
}

#[test]
fn cross_rate_of_symbol_with_itself_is_unit() {
    let mut state = setup();
    relay_one(&mut state, "BTC", 19343340000000, 10, true);
    let data = pair_rate(&state, "BTC", "BTC").unwrap();
    assert_eq!(data.rate, 1_000_000_000_000_000_000u128);
    assert_eq!(data.last_updated_base, 10);
    assert_eq!(data.last_updated_quote, 10);
}
