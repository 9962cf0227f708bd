//! The oracle contract's persistent state, modelled as plain data: the admin
//! singleton, the relayer registry, the ping ledger, the rotation cursor and
//! the per-symbol reference stores.

use vstd::prelude::*;
use crate::kvlist::KvList;

verus! {

/// One reference observation: a rate in fixed-point units of one billionth
/// of a USD, the time it resolved at, and the request it answered.
#[derive(Clone, Copy, PartialEq, Eq, Structural, Debug)]
pub struct RefRecord {
    pub rate: u64,
    pub resolve_time: u64,
    pub request_id: u64,
}

/// The median-history variant: a vector of rates instead of one.
#[derive(PartialEq, Eq, Debug)]
pub struct RefMedianRecord {
    pub rates: Vec<u64>,
    pub resolve_time: u64,
    pub request_id: u64,
}

pub struct FeedState {
    pub contract_name: String,
    pub contract_version: String,
    pub admin: String,
    pub relayers: KvList<bool>,
    pub pings: KvList<u64>,
    pub median_status: bool,
    pub trigger: bool,
    pub ping_threshold: u64,
    pub last_relayer: Option<String>,
    pub rates: KvList<RefRecord>,
    pub medians: KvList<RefMedianRecord>,
    pub deviations: KvList<RefRecord>,
}

impl FeedState {
    pub open spec fn wf(&self) -> bool {
        &&& self.relayers.wf()
        &&& self.pings.wf()
        &&& self.rates.wf()
        &&& self.medians.wf()
        &&& self.deviations.wf()
    }

    pub open spec fn is_member(&self, id: Seq<char>) -> bool {
        self.relayers.contains_spec(id)
    }

    /// An identity that never pinged counts as last alive at time zero.
    pub open spec fn last_ping(&self, id: Seq<char>) -> u64 {
        match self.pings.spec_get(id) {
            Some(t) => t,
            None => 0,
        }
    }

    /// Alive when the last ping is no further than the threshold behind
    /// `now`; a ping from ahead of `now` counts as alive.
    pub open spec fn spec_live(&self, id: Seq<char>, now: u64) -> bool {
        now - self.last_ping(id) <= self.ping_threshold
    }
}

/// Every field but the rotation cursor agrees.
pub open spec fn same_but_last(a: FeedState, b: FeedState) -> bool {
    &&& a.contract_name == b.contract_name
    &&& a.contract_version == b.contract_version
    &&& a.admin == b.admin
    &&& a.relayers == b.relayers
    &&& a.pings == b.pings
    &&& a.median_status == b.median_status
    &&& a.trigger == b.trigger
    &&& a.ping_threshold == b.ping_threshold
    &&& a.rates == b.rates
    &&& a.medians == b.medians
    &&& a.deviations == b.deviations
}

/// Every field but the relayer registry agrees.
pub open spec fn same_but_relayers(a: FeedState, b: FeedState) -> bool {
    &&& a.contract_name == b.contract_name
    &&& a.contract_version == b.contract_version
    &&& a.admin == b.admin
    &&& a.pings == b.pings
    &&& a.median_status == b.median_status
    &&& a.trigger == b.trigger
    &&& a.ping_threshold == b.ping_threshold
    &&& a.last_relayer == b.last_relayer
    &&& a.rates == b.rates
    &&& a.medians == b.medians
    &&& a.deviations == b.deviations
}

/// Every field but the ping ledger agrees.
pub open spec fn same_but_pings(a: FeedState, b: FeedState) -> bool {
    &&& a.contract_name == b.contract_name
    &&& a.contract_version == b.contract_version
    &&& a.admin == b.admin
    &&& a.relayers == b.relayers
    &&& a.median_status == b.median_status
    &&& a.trigger == b.trigger
    &&& a.ping_threshold == b.ping_threshold
    &&& a.last_relayer == b.last_relayer
    &&& a.rates == b.rates
    &&& a.medians == b.medians
    &&& a.deviations == b.deviations
}

/// Every field but the admin singleton agrees.
pub open spec fn same_but_admin(a: FeedState, b: FeedState) -> bool {
    &&& a.contract_name == b.contract_name
    &&& a.contract_version == b.contract_version
    &&& a.relayers == b.relayers
    &&& a.pings == b.pings
    &&& a.median_status == b.median_status
    &&& a.trigger == b.trigger
    &&& a.ping_threshold == b.ping_threshold
    &&& a.last_relayer == b.last_relayer
    &&& a.rates == b.rates
    &&& a.medians == b.medians
    &&& a.deviations == b.deviations
}

/// Every field but the request trigger agrees.
pub open spec fn same_but_trigger(a: FeedState, b: FeedState) -> bool {
    &&& a.contract_name == b.contract_name
    &&& a.contract_version == b.contract_version
    &&& a.admin == b.admin
    &&& a.relayers == b.relayers
    &&& a.pings == b.pings
    &&& a.median_status == b.median_status
    &&& a.ping_threshold == b.ping_threshold
    &&& a.last_relayer == b.last_relayer
    &&& a.rates == b.rates
    &&& a.medians == b.medians
    &&& a.deviations == b.deviations
}

/// Every field but the median switch agrees.
pub open spec fn same_but_median_status(a: FeedState, b: FeedState) -> bool {
    &&& a.contract_name == b.contract_name
    &&& a.contract_version == b.contract_version
    &&& a.admin == b.admin
    &&& a.relayers == b.relayers
    &&& a.pings == b.pings
    &&& a.trigger == b.trigger
    &&& a.ping_threshold == b.ping_threshold
    &&& a.last_relayer == b.last_relayer
    &&& a.rates == b.rates
    &&& a.medians == b.medians
    &&& a.deviations == b.deviations
}

/// Every field but the scalar reference store agrees.
pub open spec fn same_but_rates(a: FeedState, b: FeedState) -> bool {
    &&& a.contract_name == b.contract_name
    &&& a.contract_version == b.contract_version
    &&& a.admin == b.admin
    &&& a.relayers == b.relayers
    &&& a.pings == b.pings
    &&& a.median_status == b.median_status
    &&& a.trigger == b.trigger
    &&& a.ping_threshold == b.ping_threshold
    &&& a.last_relayer == b.last_relayer
    &&& a.medians == b.medians
    &&& a.deviations == b.deviations
}

/// Every field but the median store agrees.
pub open spec fn same_but_medians(a: FeedState, b: FeedState) -> bool {
    &&& a.contract_name == b.contract_name
    &&& a.contract_version == b.contract_version
    &&& a.admin == b.admin
    &&& a.relayers == b.relayers
    &&& a.pings == b.pings
    &&& a.median_status == b.median_status
    &&& a.trigger == b.trigger
    &&& a.ping_threshold == b.ping_threshold
    &&& a.last_relayer == b.last_relayer
    &&& a.rates == b.rates
    &&& a.deviations == b.deviations
}

/// Every field but the deviation store agrees.
pub open spec fn same_but_deviations(a: FeedState, b: FeedState) -> bool {
    &&& a.contract_name == b.contract_name
    &&& a.contract_version == b.contract_version
    &&& a.admin == b.admin
    &&& a.relayers == b.relayers
    &&& a.pings == b.pings
    &&& a.median_status == b.median_status
    &&& a.trigger == b.trigger
    &&& a.ping_threshold == b.ping_threshold
    &&& a.last_relayer == b.last_relayer
    &&& a.rates == b.rates
    &&& a.medians == b.medians
}

/// Decides liveness of `id` at time `now` against the state's threshold.
pub fn is_live(state: &FeedState, id: &str, now: u64) -> (r: bool)
    requires
        state.wf(),
    ensures
        r == state.spec_live(id@, now),
{
    let last: u64 = match state.pings.get(id) {
        Some(t) => *t,
        None => 0,
    };
    if last > now {
        true
    } else {
        now - last <= state.ping_threshold
    }
}

} // verus!
