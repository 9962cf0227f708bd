//! The reference store: per-symbol rate records with a monotonic freshness
//! guard. A guarded relay skips, per symbol, any write whose resolve time
//! does not exceed the stored one; a forced relay always overwrites. The
//! virtual "USD" record is never stored and always reads as one USD.

use vstd::prelude::*;
use vstd::string::*;
use crate::events::Attribute;
use crate::feed::errors::ContractError;
use crate::feed::msg::Response;
use crate::feed::state::{
    FeedState, RefRecord, RefMedianRecord, same_but_rates, same_but_medians, same_but_deviations,
    same_but_median_status,
};
use crate::kvlist::KvList;
use crate::text::str_eq;

verus! {

pub open spec fn usd_symbol() -> Seq<char> {
    "USD"@
}

/// The virtual record of the quote currency itself: rate one (in billionths),
/// never stale, answering no request.
pub open spec fn usd_record() -> RefRecord {
    RefRecord { rate: 1000000000, resolve_time: u64::MAX, request_id: 0 }
}

/// One write against a stored record: a guarded write yields to a stored
/// record at least as fresh; a forced write always lands.
pub open spec fn guarded_update(
    prev: Option<RefRecord>,
    rate: u64,
    resolve_time: u64,
    request_id: u64,
    guarded: bool,
) -> Option<RefRecord> {
    if guarded && prev is Some && prev->0.resolve_time >= resolve_time {
        prev
    } else {
        Some(RefRecord { rate, resolve_time, request_id })
    }
}

/// What a batch leaves at `sym` after its first `n` pairs.
pub open spec fn relay_fold(
    prev: Option<RefRecord>,
    pairs: Seq<(String, u64)>,
    resolve_time: u64,
    request_id: u64,
    guarded: bool,
    sym: Seq<char>,
    n: int,
) -> Option<RefRecord>
    decreases n,
{
    if n <= 0 {
        prev
    } else {
        let p = relay_fold(prev, pairs, resolve_time, request_id, guarded, sym, n - 1);
        if pairs[n - 1].0@ == sym {
            guarded_update(p, pairs[n - 1].1, resolve_time, request_id, guarded)
        } else {
            p
        }
    }
}

fn apply_relay(
    list: &mut KvList<RefRecord>,
    symbol_rates: &Vec<(String, u64)>,
    resolve_time: u64,
    request_id: u64,
    guarded: bool,
)
    requires
        old(list).wf(),
    ensures
        final(list).wf(),
        forall|sym: Seq<char>| #[trigger]
            final(list).spec_get(sym) == relay_fold(
                old(list).spec_get(sym),
                symbol_rates@,
                resolve_time,
                request_id,
                guarded,
                sym,
                symbol_rates@.len() as int,
            ),
{
    let ghost orig = *list;
    let n = symbol_rates.len();
    let mut i: usize = 0;
    while i < n
        invariant
            i <= n,
            n == symbol_rates@.len(),
            orig == *old(list),
            list.wf(),
            forall|sym: Seq<char>| #[trigger]
                list.spec_get(sym) == relay_fold(
                    orig.spec_get(sym),
                    symbol_rates@,
                    resolve_time,
                    request_id,
                    guarded,
                    sym,
                    i as int,
                ),
        decreases n - i,
    {
        let ghost before = *list;
        let sym = &symbol_rates[i].0;
        let rate = symbol_rates[i].1;
        let write: bool = match list.get(sym.as_str()) {
            Some(rec) => !guarded || rec.resolve_time < resolve_time,
            None => true,
        };
        if write {
            list.set(sym.clone(), RefRecord { rate, resolve_time, request_id });
        }
        proof {
            let s0 = symbol_rates@[i as int].0@;
            assert forall|q: Seq<char>| #[trigger]
                list.spec_get(q) == relay_fold(
                    orig.spec_get(q),
                    symbol_rates@,
                    resolve_time,
                    request_id,
                    guarded,
                    q,
                    i as int + 1,
                ) by {
                if q == s0 {
                    assert(list.spec_get(q) == guarded_update(
                        before.spec_get(q),
                        rate,
                        resolve_time,
                        request_id,
                        guarded,
                    ));
                } else {
                    assert(list.spec_get(q) == before.spec_get(q));
                }
            }
        }
        i = i + 1;
    }
}

/// Writes a batch of observations into the scalar reference store, each
/// symbol under the freshness guard unless forced. Only a registered relayer
/// may call; an unauthorized batch is rejected whole.
pub fn relay(
    state: &mut FeedState,
    sender: &String,
    symbol_rates: Vec<(String, u64)>,
    resolve_time: u64,
    request_id: u64,
    guarded: bool,
) -> (r: Result<Response, ContractError>)
    requires
        old(state).wf(),
    ensures
        final(state).wf(),
        !old(state).is_member(sender@) ==> {
            &&& r matches Err(e) && e matches ContractError::UnauthorizedRelayer { msg }
                && msg@ == sender@
            &&& *final(state) == *old(state)
        },
        old(state).is_member(sender@) ==> {
            &&& r matches Ok(resp) && resp.attributes@.len() == 1 && resp.attributes@[0].key@
                == "action"@ && resp.attributes@[0].value@ == (if guarded {
                "relay"@
            } else {
                "force_relay"@
            }) && resp.events@.len() == 0
            &&& same_but_rates(*final(state), *old(state))
            &&& forall|sym: Seq<char>| #[trigger]
                final(state).rates.spec_get(sym) == relay_fold(
                    old(state).rates.spec_get(sym),
                    symbol_rates@,
                    resolve_time,
                    request_id,
                    guarded,
                    sym,
                    symbol_rates@.len() as int,
                )
        },
{
    if !state.relayers.contains_key(sender.as_str()) {
        return Err(ContractError::UnauthorizedRelayer { msg: sender.clone() });
    }
    apply_relay(&mut state.rates, &symbol_rates, resolve_time, request_id, guarded);
    let action = if guarded {
        String::from_str("relay")
    } else {
        String::from_str("force_relay")
    };
    let mut attributes: Vec<Attribute> = Vec::new();
    attributes.push(Attribute { key: String::from_str("action"), value: action });
    Ok(Response { attributes, events: Vec::new() })
}

/// The deviation variant of `relay`: same record shape, same guard, its own
/// store.
pub fn relay_deviation(
    state: &mut FeedState,
    sender: &String,
    symbol_rates: Vec<(String, u64)>,
    resolve_time: u64,
    request_id: u64,
    guarded: bool,
) -> (r: Result<Response, ContractError>)
    requires
        old(state).wf(),
    ensures
        final(state).wf(),
        !old(state).is_member(sender@) ==> {
            &&& r matches Err(e) && e matches ContractError::UnauthorizedRelayer { msg }
                && msg@ == sender@
            &&& *final(state) == *old(state)
        },
        old(state).is_member(sender@) ==> {
            &&& r matches Ok(resp) && resp.attributes@.len() == 1 && resp.attributes@[0].key@
                == "action"@ && resp.attributes@[0].value@ == (if guarded {
                "relay_historical_deviation"@
            } else {
                "force_relay_historical_deviation"@
            }) && resp.events@.len() == 0
            &&& same_but_deviations(*final(state), *old(state))
            &&& forall|sym: Seq<char>| #[trigger]
                final(state).deviations.spec_get(sym) == relay_fold(
                    old(state).deviations.spec_get(sym),
                    symbol_rates@,
                    resolve_time,
                    request_id,
                    guarded,
                    sym,
                    symbol_rates@.len() as int,
                )
        },
{
    if !state.relayers.contains_key(sender.as_str()) {
        return Err(ContractError::UnauthorizedRelayer { msg: sender.clone() });
    }
    apply_relay(&mut state.deviations, &symbol_rates, resolve_time, request_id, guarded);
    let action = if guarded {
        String::from_str("relay_historical_deviation")
    } else {
        String::from_str("force_relay_historical_deviation")
    };
    let mut attributes: Vec<Attribute> = Vec::new();
    attributes.push(Attribute { key: String::from_str("action"), value: action });
    Ok(Response { attributes, events: Vec::new() })
}

/// The symbol is the virtual quote currency or has a stored record.
pub open spec fn readable(s: FeedState, sym: Seq<char>) -> bool {
    sym == usd_symbol() || s.rates.spec_get(sym) is Some
}

/// The record `read` resolves to, where `readable` holds.
pub open spec fn read_value(s: FeedState, sym: Seq<char>) -> RefRecord {
    if sym == usd_symbol() {
        usd_record()
    } else {
        s.rates.spec_get(sym)->0
    }
}

/// Reads the record of one symbol: the virtual record for "USD", the stored
/// record otherwise, and an error for a symbol never relayed.
pub fn read(state: &FeedState, symbol: &str) -> (r: Result<RefRecord, ContractError>)
    requires
        state.wf(),
    ensures
        readable(*state, symbol@) ==> r == Ok::<RefRecord, ContractError>(
            read_value(*state, symbol@),
        ),
        !readable(*state, symbol@) ==> (r matches Err(e) && e matches ContractError::NotFound { key }
            && key@ == symbol@),
{
    if str_eq(symbol, "USD") {
        return Ok(RefRecord { rate: 1000000000, resolve_time: u64::MAX, request_id: 0 });
    }
    match state.rates.get(symbol) {
        Some(rec) => Ok(*rec),
        None => Err(ContractError::NotFound { key: symbol.to_owned() }),
    }
}

/// Index of the first symbol in `symbols`, from `i` on, that `read` would
/// fail on.
pub open spec fn first_unreadable_from(s: FeedState, symbols: Seq<String>, i: int) -> Option<int>
    decreases symbols.len() - i,
{
    if i < 0 || i >= symbols.len() {
        None
    } else if !readable(s, symbols[i]@) {
        Some(i)
    } else {
        first_unreadable_from(s, symbols, i + 1)
    }
}

/// Reads a batch of symbols; the first unknown symbol fails the whole batch,
/// so a caller never sees a partial result.
pub fn read_bulk(state: &FeedState, symbols: &Vec<String>) -> (r: Result<
    Vec<RefRecord>,
    ContractError,
>)
    requires
        state.wf(),
    ensures
        match r {
            Ok(recs) => {
                &&& first_unreadable_from(*state, symbols@, 0) is None
                &&& recs@.len() == symbols@.len()
                &&& forall|i: int|
                    0 <= i < symbols@.len() ==> #[trigger] recs@[i] == read_value(
                        *state,
                        symbols@[i]@,
                    )
            },
            Err(e) => {
                &&& first_unreadable_from(*state, symbols@, 0) matches Some(j)
                &&& e matches ContractError::NotFound { key } && key@ == symbols@[
                    first_unreadable_from(*state, symbols@, 0)->0
                ]@
            },
        },
{
    let n = symbols.len();
    let mut out: Vec<RefRecord> = Vec::new();
    let mut i: usize = 0;
    while i < n
        invariant
            i <= n,
            n == symbols@.len(),
            state.wf(),
            out@.len() == i,
            first_unreadable_from(*state, symbols@, 0) == first_unreadable_from(
                *state,
                symbols@,
                i as int,
            ),
            forall|j: int|
                0 <= j < i ==> #[trigger] out@[j] == read_value(*state, symbols@[j]@),
        decreases n - i,
    {
        match read(state, symbols[i].as_str()) {
            Ok(rec) => {
                out.push(rec);
            },
            Err(e) => {
                return Err(e);
            },
        }
        i = i + 1;
    }
    Ok(out)
}

/// Switches median queries on or off; only the admin may.
pub fn set_median_status(state: &mut FeedState, sender: &String, status: bool) -> (r: Result<
    Response,
    ContractError,
>)
    requires
        old(state).wf(),
    ensures
        final(state).wf(),
        sender@ != old(state).admin@ ==> {
            &&& r matches Err(e) && e == (ContractError::UnauthorizedAdmin {})
            &&& *final(state) == *old(state)
        },
        sender@ == old(state).admin@ ==> {
            &&& r matches Ok(resp) && resp.attributes@.len() == 1 && resp.attributes@[0].key@
                == "action"@ && resp.attributes@[0].value@ == "set_median_status"@
                && resp.events@.len() == 0
            &&& same_but_median_status(*final(state), *old(state))
            &&& final(state).median_status == status
        },
{
    if !str_eq(sender.as_str(), state.admin.as_str()) {
        return Err(ContractError::UnauthorizedAdmin {});
    }
    state.median_status = status;
    let mut attributes: Vec<Attribute> = Vec::new();
    attributes.push(
        Attribute { key: String::from_str("action"), value: String::from_str("set_median_status") },
    );
    Ok(Response { attributes, events: Vec::new() })
}

/// A median record reduced to plain values: the rate history, the resolve
/// time and the request id.
pub open spec fn median_view(r: Option<RefMedianRecord>) -> Option<(Seq<u64>, u64, u64)> {
    match r {
        Some(m) => Some((m.rates@, m.resolve_time, m.request_id)),
        None => None,
    }
}

/// What a median batch leaves at `sym` after its first `n` pairs: the same
/// freshness guard, over vectors of rates.
pub open spec fn relay_median_fold(
    prev: Option<(Seq<u64>, u64, u64)>,
    pairs: Seq<(String, Vec<u64>)>,
    resolve_time: u64,
    request_id: u64,
    guarded: bool,
    sym: Seq<char>,
    n: int,
) -> Option<(Seq<u64>, u64, u64)>
    decreases n,
{
    if n <= 0 {
        prev
    } else {
        let p = relay_median_fold(prev, pairs, resolve_time, request_id, guarded, sym, n - 1);
        if pairs[n - 1].0@ == sym {
            let keep = guarded && match p {
                Some(t) => t.1 >= resolve_time,
                None => false,
            };
            if keep {
                p
            } else {
                Some((pairs[n - 1].1@, resolve_time, request_id))
            }
        } else {
            p
        }
    }
}

/// Writes a batch of median histories, each symbol under the freshness guard
/// unless forced. Only a registered relayer may call, and only while median
/// queries are switched on.
pub fn relay_median(
    state: &mut FeedState,
    sender: &String,
    symbol_rates: Vec<(String, Vec<u64>)>,
    resolve_time: u64,
    request_id: u64,
    guarded: bool,
) -> (r: Result<Response, ContractError>)
    requires
        old(state).wf(),
    ensures
        final(state).wf(),
        !old(state).is_member(sender@) ==> {
            &&& r matches Err(e) && e matches ContractError::UnauthorizedRelayer { msg }
                && msg@ == sender@
            &&& *final(state) == *old(state)
        },
        old(state).is_member(sender@) && !old(state).median_status ==> {
            &&& r matches Err(e) && e == (ContractError::MedianDisabled {})
            &&& *final(state) == *old(state)
        },
        old(state).is_member(sender@) && old(state).median_status ==> {
            &&& r matches Ok(resp) && resp.attributes@.len() == 1 && resp.attributes@[0].key@
                == "action"@ && resp.attributes@[0].value@ == (if guarded {
                "relay_historical_median"@
            } else {
                "force_relay_historical_median"@
            }) && resp.events@.len() == 0
            &&& same_but_medians(*final(state), *old(state))
            &&& forall|sym: Seq<char>|
                median_view(#[trigger] final(state).medians.spec_get(sym)) == relay_median_fold(
                    median_view(old(state).medians.spec_get(sym)),
                    symbol_rates@,
                    resolve_time,
                    request_id,
                    guarded,
                    sym,
                    symbol_rates@.len() as int,
                )
        },
{
    if !state.relayers.contains_key(sender.as_str()) {
        return Err(ContractError::UnauthorizedRelayer { msg: sender.clone() });
    }
    if !state.median_status {
        return Err(ContractError::MedianDisabled {});
    }
    let ghost orig = state.medians;
    let n = symbol_rates.len();
    let mut i: usize = 0;
    while i < n
        invariant
            i <= n,
            n == symbol_rates@.len(),
            orig == old(state).medians,
            state.medians.wf(),
            forall|sym: Seq<char>|
                median_view(#[trigger] state.medians.spec_get(sym)) == relay_median_fold(
                    median_view(orig.spec_get(sym)),
                    symbol_rates@,
                    resolve_time,
                    request_id,
                    guarded,
                    sym,
                    i as int,
                ),
            state.contract_name == old(state).contract_name,
            state.contract_version == old(state).contract_version,
            state.admin == old(state).admin,
            state.relayers == old(state).relayers,
            state.pings == old(state).pings,
            state.median_status == old(state).median_status,
            state.trigger == old(state).trigger,
            state.ping_threshold == old(state).ping_threshold,
            state.last_relayer == old(state).last_relayer,
            state.rates == old(state).rates,
            state.deviations == old(state).deviations,
        decreases n - i,
    {
        let ghost before = state.medians;
        let sym = &symbol_rates[i].0;
        let write: bool = match state.medians.get(sym.as_str()) {
            Some(rec) => !guarded || rec.resolve_time < resolve_time,
            None => true,
        };
        if write {
            let rates = symbol_rates[i].1.clone();
            proof {
                assert forall|t: int| 0 <= t < rates@.len() implies rates@[t] == symbol_rates@[
                    i as int
                ].1@[t] by {
                    assert(cloned::<u64>(symbol_rates@[i as int].1@[t], rates@[t]));
                }
                assert(rates@ =~= symbol_rates@[i as int].1@);
            }
            state.medians.set(
                sym.clone(),
                RefMedianRecord { rates, resolve_time, request_id },
            );
        }
        proof {
            let s0 = symbol_rates@[i as int].0@;
            assert forall|q: Seq<char>|
                median_view(#[trigger] state.medians.spec_get(q)) == relay_median_fold(
                    median_view(orig.spec_get(q)),
                    symbol_rates@,
                    resolve_time,
                    request_id,
                    guarded,
                    q,
                    i as int + 1,
                ) by {
                if q != s0 {
                    assert(state.medians.spec_get(q) == before.spec_get(q));
                }
            }
        }
        i = i + 1;
    }
    let action = if guarded {
        String::from_str("relay_historical_median")
    } else {
        String::from_str("force_relay_historical_median")
    };
    let mut attributes: Vec<Attribute> = Vec::new();
    attributes.push(Attribute { key: String::from_str("action"), value: action });
    Ok(Response { attributes, events: Vec::new() })
}

/// A chain of guarded single-symbol writes, the `n`-step prefix.
pub open spec fn guarded_chain(
    prev: Option<RefRecord>,
    updates: Seq<(u64, u64, u64)>,
    n: int,
) -> Option<RefRecord>
    decreases n,
{
    if n <= 0 {
        prev
    } else {
        guarded_update(
            guarded_chain(prev, updates, n - 1),
            updates[n - 1].0,
            updates[n - 1].1,
            updates[n - 1].2,
            true,
        )
    }
}

proof fn lemma_chain_prefix(updates: Seq<(u64, u64, u64)>, k: int, n: int)
    requires
        0 <= k < updates.len(),
        forall|j: int| 0 <= j < updates.len() && j != k ==> (#[trigger] updates[j]).1 < updates[k].1,
        0 <= n <= updates.len(),
    ensures
        n <= k ==> (guarded_chain(None, updates, n) matches Some(rec) ==> rec.resolve_time
            < updates[k].1),
        n > k ==> guarded_chain(None, updates, n) == Some(
            RefRecord { rate: updates[k].0, resolve_time: updates[k].1, request_id: updates[k].2 },
        ),
    decreases n,
{
    if n > 0 {
        lemma_chain_prefix(updates, k, n - 1);
    }
}

/// Monotonicity of the freshness guard: a sequence of guarded writes for one
/// symbol, with pairwise distinct resolve times, leaves exactly the write
/// with the greatest resolve time, in whatever order the writes came.
pub proof fn lemma_relay_monotonicity(updates: Seq<(u64, u64, u64)>, k: int)
    requires
        0 <= k < updates.len(),
        forall|j: int| 0 <= j < updates.len() && j != k ==> (#[trigger] updates[j]).1 < updates[k].1,
    ensures
        guarded_chain(None, updates, updates.len() as int) == Some(
            RefRecord { rate: updates[k].0, resolve_time: updates[k].1, request_id: updates[k].2 },
        ),
{
    lemma_chain_prefix(updates, k, updates.len() as int);
}

/// The greatest resolve time among the first `n` writes.
pub open spec fn max_resolve_time(updates: Seq<(u64, u64, u64)>, n: int) -> u64
    decreases n,
{
    if n <= 1 {
        updates[0].1
    } else {
        let m = max_resolve_time(updates, n - 1);
        if updates[n - 1].1 > m {
            updates[n - 1].1
        } else {
            m
        }
    }
}

/// The freshness guard is monotonic: after any non-empty sequence of guarded
/// writes for one symbol, the stored resolve time is the greatest submitted
/// one, whatever the submission order.
pub proof fn lemma_resolve_time_is_max(updates: Seq<(u64, u64, u64)>, n: int)
    requires
        1 <= n <= updates.len(),
    ensures
        guarded_chain(None, updates, n) matches Some(rec) && rec.resolve_time == max_resolve_time(
            updates,
            n,
        ),
    decreases n,
{
    if n == 1 {
        assert(guarded_chain(None, updates, 0) is None);
    } else {
        lemma_resolve_time_is_max(updates, n - 1);
    }
}

/// Force bypass: an unguarded write lands whatever is stored, in particular
/// over a fresher record.
pub proof fn lemma_force_bypass(
    prev: Option<RefRecord>,
    rate: u64,
    resolve_time: u64,
    request_id: u64,
)
    ensures
        guarded_update(prev, rate, resolve_time, request_id, false) == Some(
            RefRecord { rate, resolve_time, request_id },
        ),
{
}

} // verus!
