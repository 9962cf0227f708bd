//! Shared protocol vocabulary between the oracle contract and its consumers:
//! the request payloads forwarded to the oracle, the callback payloads the
//! relayers send back, and the reading of a forwarded call's outcome that
//! recovers the correlation id and symbol.

use vstd::prelude::*;
use crate::events::{Event, SubMsgResponse, attrs_contain, first_attr_value, find_attr, event_contains_attr};

verus! {

#[derive(Clone, Copy, PartialEq, Eq, Structural)]
pub enum RequestType {
    RequestRate,
    RequestMedian,
    RequestDeviation,
}

#[derive(Debug)]
pub struct RequestRateData {
    pub symbol: String,
    pub resolve_time: u64,
    pub callback_sig: String,
    pub callback_data: Vec<u8>,
}

#[derive(Debug)]
pub struct RequestDeviationData {
    pub symbol: String,
    pub resolve_time: u64,
    pub callback_sig: String,
    pub callback_data: Vec<u8>,
}

#[derive(Debug)]
pub struct RequestMedianData {
    pub symbol: String,
    pub resolve_time: u64,
    pub callback_sig: String,
    pub callback_data: Vec<u8>,
}

pub struct CallbackRateData {
    pub request_id: String,
    pub symbol: String,
    pub symbol_rate: u64,
    pub last_updated: u64,
    pub callback_data: Vec<u8>,
}

pub struct CallbackRateMedian {
    pub request_id: String,
    pub symbol: String,
    pub symbol_rates: Vec<u64>,
    pub last_updated: u64,
    pub callback_data: Vec<u8>,
}

pub struct CallbackRateDeviation {
    pub request_id: String,
    pub symbol: String,
    pub symbol_rates: Vec<u64>,
    pub last_updated: u64,
    pub callback_data: Vec<u8>,
}

#[derive(Debug)]
pub enum OracleRequestMsg {
    RequestRate(RequestRateData),
    RequestDeviation(RequestDeviationData),
    RequestMedian(RequestMedianData),
}

/// A forwarded call to the oracle contract, with the continuation tag that
/// its outcome will carry.
#[derive(Debug)]
pub struct SubMsg {
    pub contract_addr: String,
    pub msg: OracleRequestMsg,
    pub reply_id: u64,
}

/// Correlation id and symbol recovered from a forwarded call's outcome.
#[derive(Debug)]
pub struct OracleReply {
    pub request_id: String,
    pub symbol: String,
}

/// Membership query understood by the oracle contract.
pub enum QueryMsg {
    IsRelayer { relayer: String },
}

#[derive(PartialEq, Eq, Debug)]
pub enum RelayerError {
    InvalidRelayer { relayer_address: String },
}

/// Failure to recover the correlation fields from a forwarded call's outcome.
#[derive(PartialEq, Eq, Debug)]
pub enum ReplyError {
    EventNotFound {},
    AttributeNotFound { key: String },
}

/// Builds the forwarded oracle request: the payload variant follows the
/// request kind, and the continuation tag is `success_id`.
pub fn oracle_submessage(
    oracle_address: String,
    symbol: String,
    resolve_time: u64,
    callback_data: Vec<u8>,
    success_id: u64,
    callback_sig: String,
    msg_type: RequestType,
) -> (m: SubMsg)
    ensures
        m.contract_addr == oracle_address,
        m.reply_id == success_id,
        m.msg == (match msg_type {
            RequestType::RequestRate => OracleRequestMsg::RequestRate(
                RequestRateData { symbol, resolve_time, callback_sig, callback_data },
            ),
            RequestType::RequestMedian => OracleRequestMsg::RequestMedian(
                RequestMedianData { symbol, resolve_time, callback_sig, callback_data },
            ),
            RequestType::RequestDeviation => OracleRequestMsg::RequestDeviation(
                RequestDeviationData { symbol, resolve_time, callback_sig, callback_data },
            ),
        }),
{
    let payload: OracleRequestMsg;
    match msg_type {
        RequestType::RequestRate => {
            payload = OracleRequestMsg::RequestRate(
                RequestRateData { symbol, resolve_time, callback_sig, callback_data },
            );
        },
        RequestType::RequestMedian => {
            payload = OracleRequestMsg::RequestMedian(
                RequestMedianData { symbol, resolve_time, callback_sig, callback_data },
            );
        },
        RequestType::RequestDeviation => {
            payload = OracleRequestMsg::RequestDeviation(
                RequestDeviationData { symbol, resolve_time, callback_sig, callback_data },
            );
        },
    }
    SubMsg { contract_addr: oracle_address, msg: payload, reply_id: success_id }
}

/// The action tag that marks the oracle's request event.
pub open spec fn action_key() -> Seq<char> {
    "action"@
}

pub open spec fn request_price_tag() -> Seq<char> {
    "request_price"@
}

pub open spec fn request_id_key() -> Seq<char> {
    "request_id"@
}

pub open spec fn symbol_key() -> Seq<char> {
    "symbol"@
}

pub open spec fn is_request_price_event(e: Event) -> bool {
    attrs_contain(e.attributes@, action_key(), request_price_tag())
}

/// Index of the first request-price event at or after `i`.
pub open spec fn first_request_event_from(events: Seq<Event>, i: int) -> Option<int>
    decreases events.len() - i,
{
    if i < 0 || i >= events.len() {
        None
    } else if is_request_price_event(events[i]) {
        Some(i)
    } else {
        first_request_event_from(events, i + 1)
    }
}

/// Recovers the correlation id and the symbol from the outcome of a
/// forwarded oracle request: the first event tagged with the request-price
/// action must carry both fields.
pub fn id_and_symbol_from_reply(reply: &SubMsgResponse) -> (r: Result<OracleReply, ReplyError>)
    ensures
        ({
            let found = first_request_event_from(reply.events@, 0);
            match r {
                Ok(or) => {
                    &&& found is Some
                    &&& first_attr_value(
                        reply.events@[found->0].attributes@,
                        request_id_key(),
                    ) == Some(or.request_id@)
                    &&& first_attr_value(reply.events@[found->0].attributes@, symbol_key())
                        == Some(or.symbol@)
                },
                Err(e) => match e {
                    ReplyError::EventNotFound {} => found is None,
                    ReplyError::AttributeNotFound { key } => {
                        &&& found is Some
                        &&& if key@ == request_id_key() {
                            first_attr_value(
                                reply.events@[found->0].attributes@,
                                request_id_key(),
                            ) is None
                        } else {
                            &&& key@ == symbol_key()
                            &&& first_attr_value(
                                reply.events@[found->0].attributes@,
                                request_id_key(),
                            ) is Some
                            &&& first_attr_value(
                                reply.events@[found->0].attributes@,
                                symbol_key(),
                            ) is None
                        }
                    },
                },
            }
        }),
{
    let n = reply.events.len();
    let mut i: usize = 0;
    while i < n
        invariant
            i <= n,
            n == reply.events@.len(),
            first_request_event_from(reply.events@, 0) == first_request_event_from(
                reply.events@,
                i as int,
            ),
        decreases n - i,
    {
        if event_contains_attr(&reply.events[i], "action", "request_price") {
            let event = &reply.events[i];
            let request_id = match find_attr(&event.attributes, "request_id") {
                Some(v) => v,
                None => {
                    return Err(
                        ReplyError::AttributeNotFound { key: String::from_str("request_id") },
                    );
                },
            };
            let symbol = match find_attr(&event.attributes, "symbol") {
                Some(v) => v,
                None => {
                    return Err(ReplyError::AttributeNotFound { key: String::from_str("symbol") });
                },
            };
            return Ok(OracleReply { request_id, symbol });
        }
        i = i + 1;
    }
    Err(ReplyError::EventNotFound {})
}

} // verus!
