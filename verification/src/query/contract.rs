//! The consumer contract: forwards rate requests to the oracle, records the
//! correlation id its continuation reports, and accepts a callback only when
//! the reported id matches the pending one and the caller is a relayer of
//! the oracle.

use vstd::prelude::*;
use vstd::string::*;
use crate::events::{Attribute, SubMsgResponse, first_attr_value};
use crate::helper::{
    CallbackRateData, CallbackRateDeviation, CallbackRateMedian, RelayerError, ReplyError,
    RequestType, SubMsg, first_request_event_from, id_and_symbol_from_reply, oracle_submessage,
    request_id_key, symbol_key,
};
use crate::query::msg::{ExecuteMsg, InitMsg, QueryAnswer, QueryMsg, Request};
use crate::query::state::{
    QueryState, State, id_view, same_but_deviation_requests, same_but_deviations,
    same_but_median_requests, same_but_medians, same_but_rate_requests, same_but_rates,
};
use crate::kvlist::KvList;
use crate::text::{str_eq, u64_to_dec, dec_digits};

verus! {

#[derive(PartialEq, Eq, Debug)]
pub enum ContractError {
    /// No stored value under this key — in particular, a callback for a
    /// symbol with no pending request.
    NotFound { key: String },
    /// The callback's correlation id differs from the pending one: the
    /// stored id first, the reported one second.
    RequestIDMismatch(String, String),
    /// The oracle does not know the caller as a relayer.
    Custom(RelayerError),
    /// The forwarded call's outcome could not be read.
    Reply(ReplyError),
    /// A continuation tag this contract never issues.
    UnsupportedReplyId { id: u64 },
}

/// What an execute call hands back: forwarded calls and attributes.
#[derive(Debug)]
pub struct QueryResponse {
    pub submessages: Vec<SubMsg>,
    pub attributes: Vec<Attribute>,
}

pub const RATE_REPLY_ID: u64 = 1;

pub const MEDIAN_REPLY_ID: u64 = 2;

pub const DEVIATION_REPLY_ID: u64 = 3;

/// Stores the oracle's address; everything else starts empty.
pub fn instantiate(msg: InitMsg) -> (r: (QueryState, QueryResponse))
    ensures
        r.0.wf(),
        r.0.config.contract_address == msg.contract_address,
        forall|q: Seq<char>| #[trigger] r.0.rate_requests.spec_get(q) is None,
        forall|q: Seq<char>| #[trigger] r.0.median_requests.spec_get(q) is None,
        forall|q: Seq<char>| #[trigger] r.0.deviation_requests.spec_get(q) is None,
        forall|q: Seq<char>| #[trigger] r.0.rates.spec_get(q) is None,
        forall|q: Seq<char>| #[trigger] r.0.medians.spec_get(q) is None,
        forall|q: Seq<char>| #[trigger] r.0.deviations.spec_get(q) is None,
        r.1.submessages@.len() == 0,
        r.1.attributes@.len() == 1,
        r.1.attributes@[0].key@ == "action"@,
        r.1.attributes@[0].value@ == "instantiate"@,
{
    let state = QueryState {
        config: State { contract_address: msg.contract_address },
        rate_requests: KvList::empty(),
        median_requests: KvList::empty(),
        deviation_requests: KvList::empty(),
        rates: KvList::empty(),
        medians: KvList::empty(),
        deviations: KvList::empty(),
    };
    let mut attributes: Vec<Attribute> = Vec::new();
    attributes.push(
        Attribute { key: String::from_str("action"), value: String::from_str("instantiate") },
    );
    (state, QueryResponse { submessages: Vec::new(), attributes })
}

/// Forwards one request to the oracle as an asynchronous call whose outcome
/// will come back under `reply_id`. Nothing is stored yet: the correlation
/// id only exists once the continuation reports it.
pub fn execute_request_relay(
    state: &QueryState,
    block_time: u64,
    msg: Request,
    reply_id: u64,
    callback_sig: String,
    request_type: RequestType,
) -> (r: QueryResponse)
    ensures
        r.attributes@.len() == 1,
        r.attributes@[0].key@ == "action"@,
        r.attributes@[0].value@ == "relay_message"@,
        r.submessages@.len() == 1,
        r.submessages@[0].contract_addr@ == state.config.contract_address@,
        r.submessages@[0].reply_id == reply_id,
        r.submessages@[0].msg == (match request_type {
            RequestType::RequestRate => crate::helper::OracleRequestMsg::RequestRate(
                crate::helper::RequestRateData {
                    symbol: msg.symbol,
                    resolve_time: block_time,
                    callback_sig,
                    callback_data: msg.callback_data,
                },
            ),
            RequestType::RequestMedian => crate::helper::OracleRequestMsg::RequestMedian(
                crate::helper::RequestMedianData {
                    symbol: msg.symbol,
                    resolve_time: block_time,
                    callback_sig,
                    callback_data: msg.callback_data,
                },
            ),
            RequestType::RequestDeviation => crate::helper::OracleRequestMsg::RequestDeviation(
                crate::helper::RequestDeviationData {
                    symbol: msg.symbol,
                    resolve_time: block_time,
                    callback_sig,
                    callback_data: msg.callback_data,
                },
            ),
        }),
{
    let sub = oracle_submessage(
        state.config.contract_address.clone(),
        msg.symbol,
        block_time,
        msg.callback_data,
        reply_id,
        callback_sig,
        request_type,
    );
    let mut submessages: Vec<SubMsg> = Vec::new();
    submessages.push(sub);
    let mut attributes: Vec<Attribute> = Vec::new();
    attributes.push(
        Attribute { key: String::from_str("action"), value: String::from_str("relay_message") },
    );
    QueryResponse { submessages, attributes }
}

/// The exact outcome of a rate callback. The checks run in order: a pending
/// request must exist for the symbol, the reported id must equal it, and the
/// oracle must vouch for the caller — `relayer_verified` is the oracle's
/// answer to that membership query. Only then is the rate stored,
/// overwriting whatever was there.
pub open spec fn rate_callback_outcome(
    pre: QueryState,
    post: QueryState,
    r: Result<QueryResponse, ContractError>,
    sender: Seq<char>,
    msg: CallbackRateData,
    relayer_verified: bool,
) -> bool {
    match pre.rate_requests.spec_get(msg.symbol@) {
        None => {
            &&& r matches Err(e) && e matches ContractError::NotFound { key } && key@
                == msg.symbol@
            &&& post == pre
        },
        Some(id) => {
            if id@ != msg.request_id@ {
                &&& r matches Err(e) && e matches ContractError::RequestIDMismatch(a, b) && a@
                    == id@ && b@ == msg.request_id@
                &&& post == pre
            } else if !relayer_verified {
                &&& r matches Err(e) && e matches ContractError::Custom(re) && re matches
                    RelayerError::InvalidRelayer { relayer_address } && relayer_address@ == sender
                &&& post == pre
            } else {
                &&& r matches Ok(resp) && {
                    &&& resp.submessages@.len() == 0
                    &&& resp.attributes@.len() == 6
                    &&& resp.attributes@[0].key@ == "action"@
                    &&& resp.attributes@[0].value@ == "rate callback"@
                    &&& resp.attributes@[1].key@ == "id"@
                    &&& resp.attributes@[1].value@ == id@
                    &&& resp.attributes@[2].key@ == "symbol"@
                    &&& resp.attributes@[2].value@ == msg.symbol@
                    &&& resp.attributes@[3].key@ == "symbol_rate"@
                    &&& resp.attributes@[3].value@ == dec_digits(msg.symbol_rate as nat)
                    &&& resp.attributes@[4].key@ == "last_updated"@
                    &&& resp.attributes@[4].value@ == dec_digits(msg.last_updated as nat)
                    &&& resp.attributes@[5].key@ == "is_verified"@
                    &&& resp.attributes@[5].value@ == "true"@
                }
                &&& same_but_rates(post, pre)
                &&& post.rates.spec_get(msg.symbol@) == Some(msg.symbol_rate)
                &&& forall|q: Seq<char>|
                    q != msg.symbol@ ==> #[trigger] post.rates.spec_get(q) == pre.rates.spec_get(q)
            }
        },
    }
}

/// Accepts a rate callback after validating the correlation id and the
/// caller's relayer status against the oracle.
pub fn execute_rate_callback(
    state: &mut QueryState,
    sender: &String,
    msg: CallbackRateData,
    relayer_verified: bool,
) -> (r: Result<QueryResponse, ContractError>)
    requires
        old(state).wf(),
    ensures
        final(state).wf(),
        rate_callback_outcome(*old(state), *final(state), r, sender@, msg, relayer_verified),
{
    let id: String = match state.rate_requests.get(msg.symbol.as_str()) {
        Some(s) => s.clone(),
        None => {
            return Err(ContractError::NotFound { key: msg.symbol });
        },
    };
    if !str_eq(id.as_str(), msg.request_id.as_str()) {
        return Err(ContractError::RequestIDMismatch(id, msg.request_id));
    }
    if !relayer_verified {
        return Err(
            ContractError::Custom(RelayerError::InvalidRelayer { relayer_address: sender.clone() }),
        );
    }
    state.rates.set(msg.symbol.clone(), msg.symbol_rate);
    let mut attributes: Vec<Attribute> = Vec::new();
    attributes.push(
        Attribute { key: String::from_str("action"), value: String::from_str("rate callback") },
    );
    attributes.push(Attribute { key: String::from_str("id"), value: id });
    attributes.push(Attribute { key: String::from_str("symbol"), value: msg.symbol });
    attributes.push(
        Attribute { key: String::from_str("symbol_rate"), value: u64_to_dec(msg.symbol_rate) },
    );
    attributes.push(
        Attribute { key: String::from_str("last_updated"), value: u64_to_dec(msg.last_updated) },
    );
    attributes.push(
        Attribute { key: String::from_str("is_verified"), value: String::from_str("true") },
    );
    Ok(QueryResponse { submessages: Vec::new(), attributes })
}

/// The exact outcome of a median callback: the same validation as the rate
/// callback, against the median request ledger and store.
pub open spec fn median_callback_outcome(
    pre: QueryState,
    post: QueryState,
    r: Result<QueryResponse, ContractError>,
    sender: Seq<char>,
    msg: CallbackRateMedian,
    relayer_verified: bool,
) -> bool {
    match pre.median_requests.spec_get(msg.symbol@) {
        None => {
            &&& r matches Err(e) && e matches ContractError::NotFound { key } && key@
                == msg.symbol@
            &&& post == pre
        },
        Some(id) => {
            if id@ != msg.request_id@ {
                &&& r matches Err(e) && e matches ContractError::RequestIDMismatch(a, b) && a@
                    == id@ && b@ == msg.request_id@
                &&& post == pre
            } else if !relayer_verified {
                &&& r matches Err(e) && e matches ContractError::Custom(re) && re matches
                    RelayerError::InvalidRelayer { relayer_address } && relayer_address@ == sender
                &&& post == pre
            } else {
                &&& r matches Ok(resp) && {
                    &&& resp.submessages@.len() == 0
                    &&& resp.attributes@.len() == 5
                    &&& resp.attributes@[0].key@ == "action"@
                    &&& resp.attributes@[0].value@ == "median callback"@
                    &&& resp.attributes@[1].key@ == "id"@
                    &&& resp.attributes@[1].value@ == id@
                    &&& resp.attributes@[2].key@ == "symbol"@
                    &&& resp.attributes@[2].value@ == msg.symbol@
                    &&& resp.attributes@[3].key@ == "last_updated"@
                    &&& resp.attributes@[3].value@ == dec_digits(msg.last_updated as nat)
                    &&& resp.attributes@[4].key@ == "is_verified"@
                    &&& resp.attributes@[4].value@ == "true"@
                }
                &&& same_but_medians(post, pre)
                &&& post.medians.spec_get(msg.symbol@) == Some(msg.symbol_rates)
                &&& forall|q: Seq<char>|
                    q != msg.symbol@ ==> #[trigger] post.medians.spec_get(q)
                        == pre.medians.spec_get(q)
            }
        },
    }
}

/// Accepts a median callback after the same validation as the rate callback.
pub fn execute_historic_median(
    state: &mut QueryState,
    sender: &String,
    msg: CallbackRateMedian,
    relayer_verified: bool,
) -> (r: Result<QueryResponse, ContractError>)
    requires
        old(state).wf(),
    ensures
        final(state).wf(),
        median_callback_outcome(*old(state), *final(state), r, sender@, msg, relayer_verified),
{
    let id: String = match state.median_requests.get(msg.symbol.as_str()) {
        Some(s) => s.clone(),
        None => {
            return Err(ContractError::NotFound { key: msg.symbol });
        },
    };
    if !str_eq(id.as_str(), msg.request_id.as_str()) {
        return Err(ContractError::RequestIDMismatch(id, msg.request_id));
    }
    if !relayer_verified {
        return Err(
            ContractError::Custom(RelayerError::InvalidRelayer { relayer_address: sender.clone() }),
        );
    }
    state.medians.set(msg.symbol.clone(), msg.symbol_rates);
    let mut attributes: Vec<Attribute> = Vec::new();
    attributes.push(
        Attribute { key: String::from_str("action"), value: String::from_str("median callback") },
    );
    attributes.push(Attribute { key: String::from_str("id"), value: id });
    attributes.push(Attribute { key: String::from_str("symbol"), value: msg.symbol });
    attributes.push(
        Attribute { key: String::from_str("last_updated"), value: u64_to_dec(msg.last_updated) },
    );
    attributes.push(
        Attribute { key: String::from_str("is_verified"), value: String::from_str("true") },
    );
    Ok(QueryResponse { submessages: Vec::new(), attributes })
}

/// The exact outcome of a deviation callback: the same validation, against
/// the deviation request ledger and store.
pub open spec fn deviation_callback_outcome(
    pre: QueryState,
    post: QueryState,
    r: Result<QueryResponse, ContractError>,
    sender: Seq<char>,
    msg: CallbackRateDeviation,
    relayer_verified: bool,
) -> bool {
    match pre.deviation_requests.spec_get(msg.symbol@) {
        None => {
            &&& r matches Err(e) && e matches ContractError::NotFound { key } && key@
                == msg.symbol@
            &&& post == pre
        },
        Some(id) => {
            if id@ != msg.request_id@ {
                &&& r matches Err(e) && e matches ContractError::RequestIDMismatch(a, b) && a@
                    == id@ && b@ == msg.request_id@
                &&& post == pre
            } else if !relayer_verified {
                &&& r matches Err(e) && e matches ContractError::Custom(re) && re matches
                    RelayerError::InvalidRelayer { relayer_address } && relayer_address@ == sender
                &&& post == pre
            } else {
                &&& r matches Ok(resp) && {
                    &&& resp.submessages@.len() == 0
                    &&& resp.attributes@.len() == 5
                    &&& resp.attributes@[0].key@ == "action"@
                    &&& resp.attributes@[0].value@ == "deviation callback"@
                    &&& resp.attributes@[1].key@ == "id"@
                    &&& resp.attributes@[1].value@ == id@
                    &&& resp.attributes@[2].key@ == "symbol"@
                    &&& resp.attributes@[2].value@ == msg.symbol@
                    &&& resp.attributes@[3].key@ == "last_updated"@
                    &&& resp.attributes@[3].value@ == dec_digits(msg.last_updated as nat)
                    &&& resp.attributes@[4].key@ == "is_verified"@
                    &&& resp.attributes@[4].value@ == "true"@
                }
                &&& same_but_deviations(post, pre)
                &&& post.deviations.spec_get(msg.symbol@) == Some(msg.symbol_rates)
                &&& forall|q: Seq<char>|
                    q != msg.symbol@ ==> #[trigger] post.deviations.spec_get(q)
                        == pre.deviations.spec_get(q)
            }
        },
    }
}

/// Accepts a deviation callback after the same validation as the rate
/// callback.
pub fn execute_historic_deviation(
    state: &mut QueryState,
    sender: &String,
    msg: CallbackRateDeviation,
    relayer_verified: bool,
) -> (r: Result<QueryResponse, ContractError>)
    requires
        old(state).wf(),
    ensures
        final(state).wf(),
        deviation_callback_outcome(*old(state), *final(state), r, sender@, msg, relayer_verified),
{
    let id: String = match state.deviation_requests.get(msg.symbol.as_str()) {
        Some(s) => s.clone(),
        None => {
            return Err(ContractError::NotFound { key: msg.symbol });
        },
    };
    if !str_eq(id.as_str(), msg.request_id.as_str()) {
        return Err(ContractError::RequestIDMismatch(id, msg.request_id));
    }
    if !relayer_verified {
        return Err(
            ContractError::Custom(RelayerError::InvalidRelayer { relayer_address: sender.clone() }),
        );
    }
    state.deviations.set(msg.symbol.clone(), msg.symbol_rates);
    let mut attributes: Vec<Attribute> = Vec::new();
    attributes.push(
        Attribute {
            key: String::from_str("action"),
            value: String::from_str("deviation callback"),
        },
    );
    attributes.push(Attribute { key: String::from_str("id"), value: id });
    attributes.push(Attribute { key: String::from_str("symbol"), value: msg.symbol });
    attributes.push(
        Attribute { key: String::from_str("last_updated"), value: u64_to_dec(msg.last_updated) },
    );
    attributes.push(
        Attribute { key: String::from_str("is_verified"), value: String::from_str("true") },
    );
    Ok(QueryResponse { submessages: Vec::new(), attributes })
}

/// Dispatches an execute message: requests forward to the oracle without
/// touching the state, and callbacks validate before they store.
/// `relayer_verified` is the oracle's answer to the membership query for
/// `sender`; only the callback paths read it.
pub fn execute(
    state: &mut QueryState,
    sender: &String,
    block_time: u64,
    msg: ExecuteMsg,
    relayer_verified: bool,
) -> (r: Result<QueryResponse, ContractError>)
    requires
        old(state).wf(),
    ensures
        final(state).wf(),
        match msg {
            ExecuteMsg::RequestRate(m) => *final(state) == *old(state) && r is Ok,
            ExecuteMsg::RequestMedian(m) => *final(state) == *old(state) && r is Ok,
            ExecuteMsg::RequestDeviation(m) => *final(state) == *old(state) && r is Ok,
            ExecuteMsg::CallbackRate(m) => rate_callback_outcome(
                *old(state),
                *final(state),
                r,
                sender@,
                m,
                relayer_verified,
            ),
            ExecuteMsg::CallbackMedian(m) => median_callback_outcome(
                *old(state),
                *final(state),
                r,
                sender@,
                m,
                relayer_verified,
            ),
            ExecuteMsg::CallbackDeviation(m) => deviation_callback_outcome(
                *old(state),
                *final(state),
                r,
                sender@,
                m,
                relayer_verified,
            ),
        },
{
    match msg {
        ExecuteMsg::RequestRate(m) => Ok(
            execute_request_relay(
                state,
                block_time,
                m,
                RATE_REPLY_ID,
                String::from_str("callback_rate"),
                RequestType::RequestRate,
            ),
        ),
        ExecuteMsg::RequestMedian(m) => Ok(
            execute_request_relay(
                state,
                block_time,
                m,
                MEDIAN_REPLY_ID,
                String::from_str("callback_median"),
                RequestType::RequestMedian,
            ),
        ),
        ExecuteMsg::RequestDeviation(m) => Ok(
            execute_request_relay(
                state,
                block_time,
                m,
                DEVIATION_REPLY_ID,
                String::from_str("callback_deviation"),
                RequestType::RequestDeviation,
            ),
        ),
        ExecuteMsg::CallbackRate(m) => execute_rate_callback(state, sender, m, relayer_verified),
        ExecuteMsg::CallbackMedian(m) => execute_historic_median(state, sender, m, relayer_verified),
        ExecuteMsg::CallbackDeviation(m) => execute_historic_deviation(
            state,
            sender,
            m,
            relayer_verified,
        ),
    }
}

/// What the continuation extracts from a forwarded call's outcome, where
/// both fields are present in the first request-price event.
pub open spec fn reply_extract(events: Seq<crate::events::Event>) -> Option<(Seq<char>, Seq<char>)> {
    match first_request_event_from(events, 0) {
        Some(j) => {
            let rid = first_attr_value(events[j].attributes@, request_id_key());
            let sym = first_attr_value(events[j].attributes@, symbol_key());
            if rid is Some && sym is Some {
                Some((rid->0, sym->0))
            } else {
                None
            }
        },
        None => None,
    }
}

/// The exact outcome of processing a continuation against one of the three
/// pending-request ledgers: on success the extracted correlation id becomes
/// the pending id of the extracted symbol; a malformed outcome changes
/// nothing and reports what was missing.
pub open spec fn process_reply_outcome(
    pre_requests: KvList<String>,
    post_requests: KvList<String>,
    r: Result<QueryResponse, ContractError>,
    events: Seq<crate::events::Event>,
    id_attr_name: Seq<char>,
) -> bool {
    match reply_extract(events) {
        Some(pair) => {
            &&& r matches Ok(resp) && {
                &&& resp.submessages@.len() == 0
                &&& resp.attributes@.len() == 2
                &&& resp.attributes@[0].key@ == id_attr_name
                &&& resp.attributes@[0].value@ == pair.0
                &&& resp.attributes@[1].key@ == "symbol"@
                &&& resp.attributes@[1].value@ == pair.1
            }
            &&& id_view(post_requests.spec_get(pair.1)) == Some(pair.0)
            &&& forall|q: Seq<char>|
                q != pair.1 ==> #[trigger] post_requests.spec_get(q) == pre_requests.spec_get(q)
        },
        None => {
            &&& post_requests == pre_requests
            &&& r matches Err(e) && e matches ContractError::Reply(re) && match re {
                ReplyError::EventNotFound {} => first_request_event_from(events, 0) is None,
                ReplyError::AttributeNotFound { key } => {
                    &&& first_request_event_from(events, 0) matches Some(j)
                    &&& if key@ == request_id_key() {
                        first_attr_value(events[j].attributes@, request_id_key()) is None
                    } else {
                        &&& key@ == symbol_key()
                        &&& first_attr_value(events[j].attributes@, request_id_key()) is Some
                        &&& first_attr_value(events[j].attributes@, symbol_key()) is None
                    }
                },
            }
        },
    }
}

/// Records the correlation id that a rate request's continuation reports.
pub fn process_rate_reply(state: &mut QueryState, reply: &SubMsgResponse) -> (r: Result<
    QueryResponse,
    ContractError,
>)
    requires
        old(state).wf(),
    ensures
        final(state).wf(),
        same_but_rate_requests(*final(state), *old(state)),
        process_reply_outcome(
            old(state).rate_requests,
            final(state).rate_requests,
            r,
            reply.events@,
            "request_id_returned"@,
        ),
{
    let extracted = match id_and_symbol_from_reply(reply) {
        Ok(or) => or,
        Err(e) => {
            return Err(ContractError::Reply(e));
        },
    };
    state.rate_requests.set(extracted.symbol.clone(), extracted.request_id.clone());
    let mut attributes: Vec<Attribute> = Vec::new();
    attributes.push(
        Attribute {
            key: String::from_str("request_id_returned"),
            value: extracted.request_id,
        },
    );
    attributes.push(Attribute { key: String::from_str("symbol"), value: extracted.symbol });
    Ok(QueryResponse { submessages: Vec::new(), attributes })
}

/// Records the correlation id that a median request's continuation reports.
pub fn process_median_reply(state: &mut QueryState, reply: &SubMsgResponse) -> (r: Result<
    QueryResponse,
    ContractError,
>)
    requires
        old(state).wf(),
    ensures
        final(state).wf(),
        same_but_median_requests(*final(state), *old(state)),
        process_reply_outcome(
            old(state).median_requests,
            final(state).median_requests,
            r,
            reply.events@,
            "median_request_id_returned"@,
        ),
{
    let extracted = match id_and_symbol_from_reply(reply) {
        Ok(or) => or,
        Err(e) => {
            return Err(ContractError::Reply(e));
        },
    };
    state.median_requests.set(extracted.symbol.clone(), extracted.request_id.clone());
    let mut attributes: Vec<Attribute> = Vec::new();
    attributes.push(
        Attribute {
            key: String::from_str("median_request_id_returned"),
            value: extracted.request_id,
        },
    );
    attributes.push(Attribute { key: String::from_str("symbol"), value: extracted.symbol });
    Ok(QueryResponse { submessages: Vec::new(), attributes })
}

/// Records the correlation id that a deviation request's continuation
/// reports.
pub fn process_deviation_reply(state: &mut QueryState, reply: &SubMsgResponse) -> (r: Result<
    QueryResponse,
    ContractError,
>)
    requires
        old(state).wf(),
    ensures
        final(state).wf(),
        same_but_deviation_requests(*final(state), *old(state)),
        process_reply_outcome(
            old(state).deviation_requests,
            final(state).deviation_requests,
            r,
            reply.events@,
            "deviation_request_id_returned"@,
        ),
{
    let extracted = match id_and_symbol_from_reply(reply) {
        Ok(or) => or,
        Err(e) => {
            return Err(ContractError::Reply(e));
        },
    };
    state.deviation_requests.set(extracted.symbol.clone(), extracted.request_id.clone());
    let mut attributes: Vec<Attribute> = Vec::new();
    attributes.push(
        Attribute {
            key: String::from_str("deviation_request_id_returned"),
            value: extracted.request_id,
        },
    );
    attributes.push(Attribute { key: String::from_str("symbol"), value: extracted.symbol });
    Ok(QueryResponse { submessages: Vec::new(), attributes })
}

/// Routes a continuation by its tag to the matching pending-request ledger;
/// a tag this contract never issued is refused.
pub fn reply(state: &mut QueryState, reply_id: u64, result: &SubMsgResponse) -> (r: Result<
    QueryResponse,
    ContractError,
>)
    requires
        old(state).wf(),
    ensures
        final(state).wf(),
        reply_id == RATE_REPLY_ID ==> same_but_rate_requests(*final(state), *old(state))
            && process_reply_outcome(
            old(state).rate_requests,
            final(state).rate_requests,
            r,
            result.events@,
            "request_id_returned"@,
        ),
        reply_id == MEDIAN_REPLY_ID ==> same_but_median_requests(*final(state), *old(state))
            && process_reply_outcome(
            old(state).median_requests,
            final(state).median_requests,
            r,
            result.events@,
            "median_request_id_returned"@,
        ),
        reply_id == DEVIATION_REPLY_ID ==> same_but_deviation_requests(*final(state), *old(state))
            && process_reply_outcome(
            old(state).deviation_requests,
            final(state).deviation_requests,
            r,
            result.events@,
            "deviation_request_id_returned"@,
        ),
        !(reply_id == RATE_REPLY_ID || reply_id == MEDIAN_REPLY_ID || reply_id
            == DEVIATION_REPLY_ID) ==> (*final(state) == *old(state) && (r matches Err(e)
            && e matches ContractError::UnsupportedReplyId { id } && id == reply_id)),
{
    if reply_id == RATE_REPLY_ID {
        process_rate_reply(state, result)
    } else if reply_id == MEDIAN_REPLY_ID {
        process_median_reply(state, result)
    } else if reply_id == DEVIATION_REPLY_ID {
        process_deviation_reply(state, result)
    } else {
        Err(ContractError::UnsupportedReplyId { id: reply_id })
    }
}

/// Serves the read-only queries: delivered rates and pending correlation
/// ids, each failing on a symbol it has nothing for.
pub fn query(state: &QueryState, msg: QueryMsg) -> (r: Result<QueryAnswer, ContractError>)
    requires
        state.wf(),
    ensures
        match msg {
            QueryMsg::GetPrice { symbol } => match state.rates.spec_get(symbol@) {
                Some(v) => r == Ok::<QueryAnswer, ContractError>(QueryAnswer::Price(v)),
                None => r matches Err(e) && e matches ContractError::NotFound { key } && key@
                    == symbol@,
            },
            QueryMsg::GetMedian { symbol } => match state.medians.spec_get(symbol@) {
                Some(v) => r matches Ok(a) && a matches QueryAnswer::Median(w) && w@ == v@,
                None => r matches Err(e) && e matches ContractError::NotFound { key } && key@
                    == symbol@,
            },
            QueryMsg::GetDeviation { symbol } => match state.deviations.spec_get(symbol@) {
                Some(v) => r matches Ok(a) && a matches QueryAnswer::Deviation(w) && w@ == v@,
                None => r matches Err(e) && e matches ContractError::NotFound { key } && key@
                    == symbol@,
            },
            QueryMsg::GetRateRequestId { symbol } => match state.rate_requests.spec_get(symbol@) {
                Some(v) => r matches Ok(a) && a matches QueryAnswer::RateRequestId(w) && w@ == v@,
                None => r matches Err(e) && e matches ContractError::NotFound { key } && key@
                    == symbol@,
            },
            QueryMsg::GetMedianRequestId { symbol } => match state.median_requests.spec_get(
                symbol@,
            ) {
                Some(v) => r matches Ok(a) && a matches QueryAnswer::MedianRequestId(w) && w@
                    == v@,
                None => r matches Err(e) && e matches ContractError::NotFound { key } && key@
                    == symbol@,
            },
            QueryMsg::GetDeviationRequestId { symbol } => match state.deviation_requests.spec_get(
                symbol@,
            ) {
                Some(v) => r matches Ok(a) && a matches QueryAnswer::DeviationRequestId(w) && w@
                    == v@,
                None => r matches Err(e) && e matches ContractError::NotFound { key } && key@
                    == symbol@,
            },
        },
{
    match msg {
        QueryMsg::GetPrice { symbol } => match state.rates.get(symbol.as_str()) {
            Some(v) => Ok(QueryAnswer::Price(*v)),
            None => Err(ContractError::NotFound { key: symbol }),
        },
        QueryMsg::GetMedian { symbol } => match state.medians.get(symbol.as_str()) {
            Some(v) => Ok(QueryAnswer::Median(v.clone())),
            None => Err(ContractError::NotFound { key: symbol }),
        },
        QueryMsg::GetDeviation { symbol } => match state.deviations.get(symbol.as_str()) {
            Some(v) => Ok(QueryAnswer::Deviation(v.clone())),
            None => Err(ContractError::NotFound { key: symbol }),
        },
        QueryMsg::GetRateRequestId { symbol } => match state.rate_requests.get(symbol.as_str()) {
            Some(v) => Ok(QueryAnswer::RateRequestId(v.clone())),
            None => Err(ContractError::NotFound { key: symbol }),
        },
        QueryMsg::GetMedianRequestId { symbol } => match state.median_requests.get(
            symbol.as_str(),
        ) {
            Some(v) => Ok(QueryAnswer::MedianRequestId(v.clone())),
            None => Err(ContractError::NotFound { key: symbol }),
        },
        QueryMsg::GetDeviationRequestId { symbol } => match state.deviation_requests.get(
            symbol.as_str(),
        ) {
            Some(v) => Ok(QueryAnswer::DeviationRequestId(v.clone())),
            None => Err(ContractError::NotFound { key: symbol }),
        },
    }
}

} // verus!
