//! The consumer contract's boundary messages, as plain data.

use vstd::prelude::*;
use crate::helper::{CallbackRateData, CallbackRateDeviation, CallbackRateMedian};

verus! {

pub struct InitMsg {
    pub contract_address: String,
}

pub enum QueryMsg {
    GetPrice { symbol: String },
    GetMedian { symbol: String },
    GetDeviation { symbol: String },
    GetRateRequestId { symbol: String },
    GetMedianRequestId { symbol: String },
    GetDeviationRequestId { symbol: String },
}

/// The plain value each query resolves to.
#[derive(PartialEq, Eq, Debug)]
pub enum QueryAnswer {
    Price(u64),
    Median(Vec<u64>),
    Deviation(Vec<u64>),
    RateRequestId(String),
    MedianRequestId(String),
    DeviationRequestId(String),
}

/// A request carries the symbol and an opaque payload for the consumer.
pub struct Request {
    pub symbol: String,
    pub callback_data: Vec<u8>,
}

pub enum ExecuteMsg {
    RequestRate(Request),
    RequestMedian(Request),
    RequestDeviation(Request),
    CallbackRate(CallbackRateData),
    CallbackMedian(CallbackRateMedian),
    CallbackDeviation(CallbackRateDeviation),
}

} // verus!
