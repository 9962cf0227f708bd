use price_feed::events::{Attribute, Event, SubMsgResponse};
use price_feed::helper::{
    CallbackRateData, CallbackRateMedian, OracleRequestMsg, RelayerError, ReplyError, RequestType,
    id_and_symbol_from_reply, oracle_submessage,
};
use price_feed::query::contract::{
    ContractError, DEVIATION_REPLY_ID, MEDIAN_REPLY_ID, RATE_REPLY_ID, execute, instantiate,
    process_rate_reply, query, reply,
};
use price_feed::query::msg::{ExecuteMsg, InitMsg, QueryAnswer, QueryMsg, Request};
use price_feed::query::state::QueryState;

const BLOCK_TIME: u64 = 1700000000;

fn attr(key: &str, value: &str) -> Attribute {
    Attribute {
        key: key.to_string(),
        value: value.to_string(),
    }
}

fn request_price_event(request_id: &str, symbol: &str) -> Event {
    Event {
        ty: "wasm".to_string(),
        attributes: vec![
            attr("action", "request_price"),
            attr("request_id", request_id),
            attr("symbol", symbol),
        ],
    }
}

fn setup() -> QueryState {
    let (state, res) = instantiate(InitMsg {
        contract_address: "oracle".to_string(),
    });
    assert_eq!(res.attributes[0].value, "instantiate");
    state
}

fn pend_rate_request(state: &mut QueryState, request_id: &str, symbol: &str) {
    let outcome = SubMsgResponse {
        events: vec![request_price_event(request_id, symbol)],
    };
    process_rate_reply(state, &outcome).unwrap();
}

#[test]
fn reply_records_pending_request() {
    let mut state = setup();
    pend_rate_request(&mut state, "X", "BTC");
    assert_eq!(
        query(
            &state,
            QueryMsg::GetRateRequestId {
                symbol: "BTC".to_string()
            }
        )
        .unwrap(),
        QueryAnswer::RateRequestId("X".to_string())
    );
}

#[test]
fn callback_with_mismatched_id_fails() {
    let mut state = setup();
    pend_rate_request(&mut state, "X", "BTC");

    let msg = CallbackRateData {
        request_id: "Y".to_string(),
        symbol: "BTC".to_string(),
        symbol_rate: 42,
        last_updated: BLOCK_TIME,
        callback_data: vec![],
    };
    let err = execute(
        &mut state,
        &"relayer_1".to_string(),
        BLOCK_TIME,
        ExecuteMsg::CallbackRate(msg),
        true,
    )
    .unwrap_err();
    assert_eq!(
        err,
        ContractError::RequestIDMismatch("X".to_string(), "Y".to_string())
    );
    // the reference store is unchanged
    let unset = query(
        &state,
        QueryMsg::GetPrice {
            symbol: "BTC".to_string(),
        },
    )
    .unwrap_err();
    assert_eq!(
        unset,
        ContractError::NotFound {
            key: "BTC".to_string()
        }
    );
}

#[test]
fn callback_without_pending_request_fails() {
    let mut state = setup();
    let msg = CallbackRateData {
        request_id: "X".to_string(),
        symbol: "BTC".to_string(),
        symbol_rate: 42,
        last_updated: BLOCK_TIME,
        callback_data: vec![],
    };
    let err = execute(
        &mut state,
        &"relayer_1".to_string(),
        BLOCK_TIME,
        ExecuteMsg::CallbackRate(msg),
        true,
    )
    .unwrap_err();
    assert_eq!(
        err,
        ContractError::NotFound {
            key: "BTC".to_string()
        }
    );
}

#[test]
fn callback_from_unverified_relayer_fails() {
    let mut state = setup();
    pend_rate_request(&mut state, "X", "BTC");
    let msg = CallbackRateData {
        request_id: "X".to_string(),
        symbol: "BTC".to_string(),
        symbol_rate: 42,
        last_updated: BLOCK_TIME,
        callback_data: vec![],
    };
    let err = execute(
        &mut state,
        &"impostor".to_string(),
        BLOCK_TIME,
        ExecuteMsg::CallbackRate(msg),
        false,
    )
    .unwrap_err();
    assert_eq!(
        err,
        ContractError::Custom(RelayerError::InvalidRelayer {
            relayer_address: "impostor".to_string()
        })
    );
}

#[test]
fn matching_callback_stores_rate() {
    let mut state = setup();
    pend_rate_request(&mut state, "X", "BTC");
    let msg = CallbackRateData {
        request_id: "X".to_string(),
        symbol: "BTC".to_string(),
        symbol_rate: 42,
        last_updated: BLOCK_TIME,
        callback_data: vec![],
    };
    let res = execute(
        &mut state,
        &"relayer_1".to_string(),
        BLOCK_TIME,
        ExecuteMsg::CallbackRate(msg),
        true,
    )
    .unwrap();
    assert_eq!(res.attributes[0].value, "rate callback");
    assert_eq!(
        query(
            &state,
            QueryMsg::GetPrice {
                symbol: "BTC".to_string()
            }
        )
        .unwrap(),
        QueryAnswer::Price(42)
    );
}

#[test]
fn median_callback_roundtrip() {
    let mut state = setup();
    let outcome = SubMsgResponse {
        events: vec![request_price_event("M", "BTC")],
    };
    reply(&mut state, MEDIAN_REPLY_ID, &outcome).unwrap();
    let msg = CallbackRateMedian {
        request_id: "M".to_string(),
        symbol: "BTC".to_string(),
        symbol_rates: vec![10, 20, 30],
        last_updated: BLOCK_TIME,
        callback_data: vec![],
    };
    execute(
        &mut state,
        &"relayer_1".to_string(),
        BLOCK_TIME,
        ExecuteMsg::CallbackMedian(msg),
        true,
    )
    .unwrap();
    assert_eq!(
        query(
            &state,
            QueryMsg::GetMedian {
                symbol: "BTC".to_string()
            }
        )
        .unwrap(),
        QueryAnswer::Median(vec![10, 20, 30])
    );
}

#[test]
fn reply_with_unknown_tag_fails() {
    let mut state = setup();
    let outcome = SubMsgResponse {
        events: vec![request_price_event("X", "BTC")],
    };
    let err = reply(&mut state, 9, &outcome).unwrap_err();
    assert_eq!(err, ContractError::UnsupportedReplyId { id: 9 });
}

#[test]
fn reply_without_request_price_event_fails() {
    let mut state = setup();
    let outcome = SubMsgResponse {
        events: vec![Event {
            ty: "wasm".to_string(),
            attributes: vec![attr("action", "something_else")],
        }],
    };
    let err = reply(&mut state, RATE_REPLY_ID, &outcome).unwrap_err();
    assert_eq!(err, ContractError::Reply(ReplyError::EventNotFound {}));
}

#[test]
fn reply_without_request_id_attribute_fails() {
    let outcome = SubMsgResponse {
        events: vec![Event {
            ty: "wasm".to_string(),
            attributes: vec![attr("action", "request_price"), attr("symbol", "BTC")],
        }],
    };
    let err = id_and_symbol_from_reply(&outcome).unwrap_err();
    assert_eq!(
        err,
        ReplyError::AttributeNotFound {
            key: "request_id".to_string()
        }
    );
}

#[test]
fn reply_without_symbol_attribute_fails() {
    let outcome = SubMsgResponse {
        events: vec![Event {
            ty: "wasm".to_string(),
            attributes: vec![attr("action", "request_price"), attr("request_id", "X")],
        }],
    };
    let err = id_and_symbol_from_reply(&outcome).unwrap_err();
    assert_eq!(
        err,
        ReplyError::AttributeNotFound {
            key: "symbol".to_string()
        }
    );
}

#[test]
fn reply_takes_first_matching_event() {
    let outcome = SubMsgResponse {
        events: vec![
            Event {
                ty: "wasm".to_string(),
                attributes: vec![attr("action", "other")],
            },
            request_price_event("first", "BTC"),
            request_price_event("second", "ETH"),
        ],
    };
    let or = id_and_symbol_from_reply(&outcome).unwrap();
    assert_eq!(or.request_id, "first");
    assert_eq!(or.symbol, "BTC");
}

#[test]
fn request_relay_forwards_to_oracle() {
    let mut state = setup();
    let res = execute(
        &mut state,
        &"consumer".to_string(),
        BLOCK_TIME,
        ExecuteMsg::RequestRate(Request {
            symbol: "BTC".to_string(),
            callback_data: b"data".to_vec(),
        }),
        false,
    )
    .unwrap();
    assert_eq!(res.submessages.len(), 1);
    let sub = &res.submessages[0];
    assert_eq!(sub.contract_addr, "oracle");
    assert_eq!(sub.reply_id, RATE_REPLY_ID);
    match &sub.msg {
        OracleRequestMsg::RequestRate(data) => {
            assert_eq!(data.symbol, "BTC");
            assert_eq!(data.resolve_time, BLOCK_TIME);
            assert_eq!(data.callback_sig, "callback_rate");
            assert_eq!(data.callback_data, b"data".to_vec());
        }
        _ => panic!("wrong payload variant"),
    }
}

#[test]
fn oracle_submessage_picks_deviation_payload() {
    let sub = oracle_submessage(
        "oracle".to_string(),
        "BTC".to_string(),
        77,
        vec![1, 2],
        DEVIATION_REPLY_ID,
        "callback_deviation".to_string(),
        RequestType::RequestDeviation,
    );
    match &sub.msg {
        OracleRequestMsg::RequestDeviation(data) => {
            assert_eq!(data.symbol, "BTC");
            assert_eq!(data.resolve_time, 77);
        }
        _ => panic!("wrong payload variant"),
    }
}

#[test]
fn new_request_overwrites_pending_id() {
    let mut state = setup();
    pend_rate_request(&mut state, "X", "BTC");
    pend_rate_request(&mut state, "Z", "BTC");
    assert_eq!(
        query(
            &state,
            QueryMsg::GetRateRequestId {
                symbol: "BTC".to_string()
            }
        )
        .unwrap(),
        QueryAnswer::RateRequestId("Z".to_string())
    );
}
