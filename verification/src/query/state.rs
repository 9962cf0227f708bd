//! The consumer contract's persistent state: the oracle's address, the
//! pending correlation id per symbol and rate kind, and the rates the
//! callbacks delivered.

use vstd::prelude::*;
use crate::kvlist::KvList;

verus! {

/// The contract's configuration: where the oracle lives.
pub struct State {
    pub contract_address: String,
}

pub struct QueryState {
    pub config: State,
    pub rate_requests: KvList<String>,
    pub median_requests: KvList<String>,
    pub deviation_requests: KvList<String>,
    pub rates: KvList<u64>,
    pub medians: KvList<Vec<u64>>,
    pub deviations: KvList<Vec<u64>>,
}

impl QueryState {
    pub open spec fn wf(&self) -> bool {
        &&& self.rate_requests.wf()
        &&& self.median_requests.wf()
        &&& self.deviation_requests.wf()
        &&& self.rates.wf()
        &&& self.medians.wf()
        &&& self.deviations.wf()
    }
}

/// A stored correlation id reduced to its characters.
pub open spec fn id_view(o: Option<String>) -> Option<Seq<char>> {
    match o {
        Some(s) => Some(s@),
        None => None,
    }
}

/// A stored rate vector reduced to its values.
pub open spec fn rates_view(o: Option<Vec<u64>>) -> Option<Seq<u64>> {
    match o {
        Some(v) => Some(v@),
        None => None,
    }
}

/// Every field but the pending rate requests agrees.
pub open spec fn same_but_rate_requests(a: QueryState, b: QueryState) -> bool {
    &&& a.config == b.config
    &&& a.median_requests == b.median_requests
    &&& a.deviation_requests == b.deviation_requests
    &&& a.rates == b.rates
    &&& a.medians == b.medians
    &&& a.deviations == b.deviations
}

/// Every field but the pending median requests agrees.
pub open spec fn same_but_median_requests(a: QueryState, b: QueryState) -> bool {
    &&& a.config == b.config
    &&& a.rate_requests == b.rate_requests
    &&& a.deviation_requests == b.deviation_requests
    &&& a.rates == b.rates
    &&& a.medians == b.medians
    &&& a.deviations == b.deviations
}

/// Every field but the pending deviation requests agrees.
pub open spec fn same_but_deviation_requests(a: QueryState, b: QueryState) -> bool {
    &&& a.config == b.config
    &&& a.rate_requests == b.rate_requests
    &&& a.median_requests == b.median_requests
    &&& a.rates == b.rates
    &&& a.medians == b.medians
    &&& a.deviations == b.deviations
}

/// Every field but the delivered rates agrees.
pub open spec fn same_but_rates(a: QueryState, b: QueryState) -> bool {
    &&& a.config == b.config
    &&& a.rate_requests == b.rate_requests
    &&& a.median_requests == b.median_requests
    &&& a.deviation_requests == b.deviation_requests
    &&& a.medians == b.medians
    &&& a.deviations == b.deviations
}

/// Every field but the delivered medians agrees.
pub open spec fn same_but_medians(a: QueryState, b: QueryState) -> bool {
    &&& a.config == b.config
    &&& a.rate_requests == b.rate_requests
    &&& a.median_requests == b.median_requests
    &&& a.deviation_requests == b.deviation_requests
    &&& a.rates == b.rates
    &&& a.deviations == b.deviations
}

/// Every field but the delivered deviations agrees.
pub open spec fn same_but_deviations(a: QueryState, b: QueryState) -> bool {
    &&& a.config == b.config
    &&& a.rate_requests == b.rate_requests
    &&& a.median_requests == b.median_requests
    &&& a.deviation_requests == b.deviation_requests
    &&& a.rates == b.rates
    &&& a.medians == b.medians
}

} // verus!
