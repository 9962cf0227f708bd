//! The correlatable event that a price request emits.

use vstd::prelude::*;
use vstd::string::*;
use crate::events::{Attribute, Event};
use crate::text::{dec_digits, u64_to_dec};

verus! {

#[derive(Clone, Copy, PartialEq, Eq, Structural, Debug)]
pub enum EventType {
    RequestRate,
    RequestMedian,
    RequestDeviation,
}

impl EventType {
    pub open spec fn tag(self) -> Seq<char> {
        match self {
            EventType::RequestRate => "request_rate"@,
            EventType::RequestMedian => "request_median"@,
            EventType::RequestDeviation => "request_deviation"@,
        }
    }

    pub fn to_string(&self) -> (s: String)
        ensures
            s@ == self.tag(),
    {
        match self {
            EventType::RequestRate => String::from_str("request_rate"),
            EventType::RequestMedian => String::from_str("request_median"),
            EventType::RequestDeviation => String::from_str("request_deviation"),
        }
    }
}

/// The base64 rendering of a byte string, as the host displays opaque
/// payloads.
pub uninterp spec fn base64_of(b: Seq<u8>) -> Seq<char>;

/// Relies on cosmwasm_std::Binary::to_base64: the standard padded base64
/// rendering of the bytes, a function of the bytes alone.
#[verifier::external_body]
fn to_base64(b: &Vec<u8>) -> (r: String)
    ensures
        r@ == base64_of(b@),
{
    cosmwasm_std::Binary::from(b.as_slice()).to_base64()
}

/// The exact shape of a request event: its type tag and its eight
/// attributes, in order.
pub open spec fn oracle_event_matches(
    e: Event,
    event_type: EventType,
    relayer_address: Seq<char>,
    contract_address: Seq<char>,
    symbol: Seq<char>,
    resolve_time: u64,
    callback_sig: Seq<char>,
    callback_data: Seq<u8>,
    request_id: Seq<char>,
) -> bool {
    &&& e.ty@ == "price-feed"@
    &&& e.attributes@.len() == 8
    &&& e.attributes@[0].key@ == "request_type"@
    &&& e.attributes@[0].value@ == event_type.tag()
    &&& e.attributes@[1].key@ == "relayer_address"@
    &&& e.attributes@[1].value@ == relayer_address
    &&& e.attributes@[2].key@ == "event_contract_address"@
    &&& e.attributes@[2].value@ == contract_address
    &&& e.attributes@[3].key@ == "symbol"@
    &&& e.attributes@[3].value@ == symbol
    &&& e.attributes@[4].key@ == "resolve_time"@
    &&& e.attributes@[4].value@ == dec_digits(resolve_time as nat)
    &&& e.attributes@[5].key@ == "callback_signature"@
    &&& e.attributes@[5].value@ == callback_sig
    &&& e.attributes@[6].key@ == "callback_data"@
    &&& e.attributes@[6].value@ == base64_of(callback_data)
    &&& e.attributes@[7].key@ == "request_id"@
    &&& e.attributes@[7].value@ == request_id
}

/// Builds the event a price request emits, carrying the chosen relayer, the
/// requesting contract, the symbol and the correlation id.
pub fn generate_oracle_event(
    relayer_address: String,
    contract_address: String,
    symbol: String,
    resolve_time: u64,
    callback_data: Vec<u8>,
    request_id: String,
    callback_sig: String,
    event_type: EventType,
) -> (e: Event)
    ensures
        oracle_event_matches(
            e,
            event_type,
            relayer_address@,
            contract_address@,
            symbol@,
            resolve_time,
            callback_sig@,
            callback_data@,
            request_id@,
        ),
{
    let encoded_data = to_base64(&callback_data);
    let mut attributes: Vec<Attribute> = Vec::new();
    attributes.push(
        Attribute { key: String::from_str("request_type"), value: event_type.to_string() },
    );
    attributes.push(Attribute { key: String::from_str("relayer_address"), value: relayer_address });
    attributes.push(
        Attribute { key: String::from_str("event_contract_address"), value: contract_address },
    );
    attributes.push(Attribute { key: String::from_str("symbol"), value: symbol });
    attributes.push(
        Attribute { key: String::from_str("resolve_time"), value: u64_to_dec(resolve_time) },
    );
    attributes.push(Attribute { key: String::from_str("callback_signature"), value: callback_sig });
    attributes.push(Attribute { key: String::from_str("callback_data"), value: encoded_data });
    attributes.push(Attribute { key: String::from_str("request_id"), value: request_id });
    Event { ty: String::from_str("price-feed"), attributes }
}

} // verus!
