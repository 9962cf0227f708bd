//! The oracle contract's boundary messages, as plain data.

use vstd::prelude::*;
use crate::events::{Attribute, Event};

verus! {

/// What an execute call hands back to the host: attributes of the call
/// itself and the events it emits.
#[derive(Debug)]
pub struct Response {
    pub attributes: Vec<Attribute>,
    pub events: Vec<Event>,
}

pub struct InstantiateMsg {
    pub ping_threshold: u64,
}

pub struct MigrateMsg {}

pub enum ExecuteMsg {
    /// Hands the admin role over; only the current admin may.
    UpdateAdmin { admin: String },
    /// Whitelists identities into the relayer set; admin only.
    AddRelayers { relayers: Vec<String> },
    /// Revokes relayer rights; admin only.
    RemoveRelayers { relayers: Vec<String> },
    RequestRate {
        symbol: String,
        resolve_time: u64,
        callback_sig: String,
        callback_data: Vec<u8>,
    },
    RequestMedian {
        symbol: String,
        resolve_time: u64,
        callback_sig: String,
        callback_data: Vec<u8>,
    },
    RequestDeviation {
        symbol: String,
        resolve_time: u64,
        callback_sig: String,
        callback_data: Vec<u8>,
    },
    /// Records the caller as alive now; relayers only.
    RelayerPing {},
    /// Switches price requests on or off; admin only.
    ChangeTrigger { trigger: bool },
}

pub enum QueryMsg {
    Admin {},
    MedianStatus {},
    PingThreshold {},
    IsRelayer { relayer: String },
    LastPing { relayer: String },
}

/// The plain value each query resolves to.
#[derive(PartialEq, Eq, Debug)]
pub enum QueryAnswer {
    Admin(String),
    MedianStatus(bool),
    PingThreshold(u64),
    IsRelayer(bool),
    LastPing(u64),
}

} // verus!
