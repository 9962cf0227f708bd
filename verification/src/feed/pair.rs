//! The cross-rate query engine: derives a pair rate from two stored records
//! by fixed-point division, scaled to one quintillionth, and reports each
//! leg's resolve time separately so callers can judge staleness per leg.

use vstd::prelude::*;
use vstd::arithmetic::mul::lemma_mul_inequality;
use crate::feed::errors::ContractError;
use crate::feed::refstore::{readable, read_value, read};
use crate::feed::state::FeedState;

verus! {

/// A derived pair rate: scaled by ten to the eighteenth, with the resolve
/// times of both legs.
#[derive(Clone, Copy, PartialEq, Eq, Structural, Debug)]
pub struct ReferenceData {
    pub rate: u128,
    pub last_updated_base: u64,
    pub last_updated_quote: u64,
}

/// Both legs are stored (or virtual) and the quote rate is not zero.
pub open spec fn pair_ok(s: FeedState, base: Seq<char>, quote: Seq<char>) -> bool {
    &&& readable(s, base)
    &&& readable(s, quote)
    &&& read_value(s, quote).rate != 0
}

/// The pair rate as unbounded arithmetic: base over quote, carried to a
/// scale of ten to the eighteenth.
pub open spec fn pair_rate_math(s: FeedState, base: Seq<char>, quote: Seq<char>) -> int {
    read_value(s, base).rate * 1000000000000000000 / (read_value(s, quote).rate as int)
}

/// Derives the rate of `base` expressed in `quote`. An unknown symbol fails
/// with its name — the base leg is read first — and a zero quote rate fails
/// as an arithmetic error.
pub fn pair_rate(state: &FeedState, base: &str, quote: &str) -> (r: Result<
    ReferenceData,
    ContractError,
>)
    requires
        state.wf(),
    ensures
        pair_ok(*state, base@, quote@) ==> (r matches Ok(d) && {
            &&& d.rate == pair_rate_math(*state, base@, quote@)
            &&& d.last_updated_base == read_value(*state, base@).resolve_time
            &&& d.last_updated_quote == read_value(*state, quote@).resolve_time
        }),
        !readable(*state, base@) ==> (r matches Err(e)
            && e matches ContractError::NotFound { key } && key@ == base@),
        readable(*state, base@) && !readable(*state, quote@) ==> (r matches Err(e)
            && e matches ContractError::NotFound { key } && key@ == quote@),
        readable(*state, base@) && readable(*state, quote@) && read_value(*state, quote@).rate == 0
            ==> r == Err::<ReferenceData, ContractError>(ContractError::DivideByZero {}),
{
    let base_record = match read(state, base) {
        Ok(rec) => rec,
        Err(e) => {
            return Err(e);
        },
    };
    let quote_record = match read(state, quote) {
        Ok(rec) => rec,
        Err(e) => {
            return Err(e);
        },
    };
    if quote_record.rate == 0 {
        return Err(ContractError::DivideByZero {});
    }
    proof {
        lemma_mul_inequality(
            base_record.rate as int,
            u64::MAX as int,
            1000000000000000000int,
        );
    }
    let numerator: u128 = (base_record.rate as u128) * 1000000000000000000u128;
    let rate: u128 = numerator / (quote_record.rate as u128);
    Ok(
        ReferenceData {
            rate,
            last_updated_base: base_record.resolve_time,
            last_updated_quote: quote_record.resolve_time,
        },
    )
}

/// Index of the first pair, from `i` on, that `pair_rate` would fail on.
pub open spec fn first_bad_pair_from(s: FeedState, pairs: Seq<(String, String)>, i: int) -> Option<
    int,
>
    decreases pairs.len() - i,
{
    if i < 0 || i >= pairs.len() {
        None
    } else if !pair_ok(s, pairs[i].0@, pairs[i].1@) {
        Some(i)
    } else {
        first_bad_pair_from(s, pairs, i + 1)
    }
}

/// Derives a batch of pair rates; the first failing pair aborts the whole
/// batch, so a caller never sees a partial result.
pub fn pair_rates_bulk(state: &FeedState, pairs: &Vec<(String, String)>) -> (r: Result<
    Vec<ReferenceData>,
    ContractError,
>)
    requires
        state.wf(),
    ensures
        match r {
            Ok(out) => {
                &&& first_bad_pair_from(*state, pairs@, 0) is None
                &&& out@.len() == pairs@.len()
                &&& forall|i: int|
                    0 <= i < pairs@.len() ==> {
                        &&& (#[trigger] out@[i]).rate == pair_rate_math(
                            *state,
                            pairs@[i].0@,
                            pairs@[i].1@,
                        )
                        &&& out@[i].last_updated_base == read_value(
                            *state,
                            pairs@[i].0@,
                        ).resolve_time
                        &&& out@[i].last_updated_quote == read_value(
                            *state,
                            pairs@[i].1@,
                        ).resolve_time
                    }
            },
            Err(e) => {
                &&& first_bad_pair_from(*state, pairs@, 0) matches Some(j)
                &&& {
                    let b = pairs@[first_bad_pair_from(*state, pairs@, 0)->0].0@;
                    let q = pairs@[first_bad_pair_from(*state, pairs@, 0)->0].1@;
                    if !readable(*state, b) {
                        e matches ContractError::NotFound { key } && key@ == b
                    } else if !readable(*state, q) {
                        e matches ContractError::NotFound { key } && key@ == q
                    } else {
                        e == (ContractError::DivideByZero {})
                    }
                }
            },
        },
{
    let n = pairs.len();
    let mut out: Vec<ReferenceData> = Vec::new();
    let mut i: usize = 0;
    while i < n
        invariant
            i <= n,
            n == pairs@.len(),
            state.wf(),
            out@.len() == i,
            first_bad_pair_from(*state, pairs@, 0) == first_bad_pair_from(*state, pairs@, i as int),
            forall|j: int|
                0 <= j < i ==> {
                    &&& (#[trigger] out@[j]).rate == pair_rate_math(
                        *state,
                        pairs@[j].0@,
                        pairs@[j].1@,
                    )
                    &&& out@[j].last_updated_base == read_value(*state, pairs@[j].0@).resolve_time
                    &&& out@[j].last_updated_quote == read_value(*state, pairs@[j].1@).resolve_time
                },
        decreases n - i,
    {
        match pair_rate(state, pairs[i].0.as_str(), pairs[i].1.as_str()) {
            Ok(d) => {
                out.push(d);
            },
            Err(e) => {
                return Err(e);
            },
        }
        i = i + 1;
    }
    Ok(out)
}

} // verus!
