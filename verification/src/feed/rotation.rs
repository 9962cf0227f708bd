//! The relayer rotation scheduler: a deterministic round-robin scan of the
//! registry in identity order, resuming after the last selected relayer,
//! skipping members that have not pinged within the liveness threshold, and
//! wrapping to the start once.

use vstd::prelude::*;
use crate::feed::errors::ContractError;
use crate::feed::state::{FeedState, is_live, same_but_last};
use crate::text::{lex_lt, lemma_lex_trichotomy, str_lex_lt};

verus! {

/// Index of the first live member at or after `i`, in registry order.
pub open spec fn find_live_from(s: FeedState, now: u64, i: int) -> Option<int>
    decreases s.relayers.spec_len() - i,
{
    if i < 0 || i >= s.relayers.spec_len() {
        None
    } else if s.spec_live(s.relayers.key_at(i), now) {
        Some(i)
    } else {
        find_live_from(s, now, i + 1)
    }
}

/// Index of the first member at or after `i` whose identity comes after
/// `last`; the registry's length when there is none.
pub open spec fn first_above(s: FeedState, last: Seq<char>, i: int) -> int
    decreases s.relayers.spec_len() - i,
{
    if i < 0 || i >= s.relayers.spec_len() {
        s.relayers.spec_len() as int
    } else if lex_lt(last, s.relayers.key_at(i)) {
        i
    } else {
        first_above(s, last, i + 1)
    }
}

/// Where the scan resumes: right after the last selected identity, or at the
/// start when none was selected yet.
pub open spec fn resume_index(s: FeedState) -> int {
    match s.last_relayer {
        Some(l) => first_above(s, l@, 0),
        None => 0,
    }
}

/// The identity the scheduler picks: the first live member from the resume
/// point, else — wrapping around — the first live member overall.
pub open spec fn selected_relayer(s: FeedState, now: u64) -> Option<Seq<char>> {
    match find_live_from(s, now, resume_index(s)) {
        Some(j) => Some(s.relayers.key_at(j)),
        None => match find_live_from(s, now, 0) {
            Some(j) => Some(s.relayers.key_at(j)),
            None => None,
        },
    }
}

/// Scans the registry for the next live relayer without moving the cursor.
pub fn select_relayer(state: &FeedState, blocktime: u64) -> (r: Result<String, ContractError>)
    requires
        state.wf(),
    ensures
        match r {
            Ok(id) => selected_relayer(*state, blocktime) == Some(id@),
            Err(e) => selected_relayer(*state, blocktime) is None && e == (
            ContractError::RelayerNotFound {}),
        },
{
    let n = state.relayers.list_len();
    let mut start: usize = 0;
    match &state.last_relayer {
        Some(l) => {
            while start < n && !str_lex_lt(l.as_str(), state.relayers.entries[start].0.as_str())
                invariant
                    start <= n,
                    n == state.relayers.spec_len(),
                    first_above(*state, l@, 0) == first_above(*state, l@, start as int),
                decreases n - start,
            {
                start = start + 1;
            }
            proof {
                assert(start as int == first_above(*state, l@, 0));
                assert(start as int == resume_index(*state));
            }
        },
        None => {},
    }
    let mut i: usize = start;
    while i < n
        invariant
            start <= i <= n,
            n == state.relayers.spec_len(),
            state.wf(),
            start as int == resume_index(*state),
            find_live_from(*state, blocktime, start as int) == find_live_from(
                *state,
                blocktime,
                i as int,
            ),
        decreases n - i,
    {
        if is_live(state, state.relayers.entries[i].0.as_str(), blocktime) {
            return Ok(state.relayers.entries[i].0.clone());
        }
        i = i + 1;
    }
    let mut j: usize = 0;
    while j < n
        invariant
            j <= n,
            n == state.relayers.spec_len(),
            state.wf(),
            start as int == resume_index(*state),
            find_live_from(*state, blocktime, start as int) is None,
            find_live_from(*state, blocktime, 0) == find_live_from(*state, blocktime, j as int),
        decreases n - j,
    {
        if is_live(state, state.relayers.entries[j].0.as_str(), blocktime) {
            return Ok(state.relayers.entries[j].0.clone());
        }
        j = j + 1;
    }
    Err(ContractError::RelayerNotFound {})
}

/// Picks the next live relayer and persists it as the rotation cursor, so
/// the following selection resumes after it. Fails — leaving the state
/// untouched — when no member is live.
pub fn select(state: &mut FeedState, now: u64) -> (r: Result<String, ContractError>)
    requires
        old(state).wf(),
    ensures
        final(state).wf(),
        match r {
            Ok(id) => {
                &&& selected_relayer(*old(state), now) == Some(id@)
                &&& same_but_last(*final(state), *old(state))
                &&& final(state).last_relayer matches Some(l) && l@ == id@
            },
            Err(e) => {
                &&& e == (ContractError::RelayerNotFound {})
                &&& selected_relayer(*old(state), now) is None
                &&& *final(state) == *old(state)
            },
        },
{
    match select_relayer(state, now) {
        Ok(id) => {
            state.last_relayer = Some(id.clone());
            Ok(id)
        },
        Err(e) => Err(e),
    }
}

proof fn lemma_first_above_bounds(s: FeedState, last: Seq<char>, a: int)
    requires
        0 <= a <= s.relayers.spec_len(),
    ensures
        a <= first_above(s, last, a) <= s.relayers.spec_len(),
    decreases s.relayers.spec_len() - a,
{
    if a < s.relayers.spec_len() && !lex_lt(last, s.relayers.key_at(a)) {
        lemma_first_above_bounds(s, last, a + 1);
    }
}

proof fn lemma_first_above_exact(s: FeedState, last: Seq<char>, a: int, t: int)
    requires
        0 <= a <= t <= s.relayers.spec_len(),
        forall|j: int| a <= j < t ==> !lex_lt(last, #[trigger] s.relayers.key_at(j)),
        t < s.relayers.spec_len() ==> lex_lt(last, s.relayers.key_at(t)),
    ensures
        first_above(s, last, a) == t,
    decreases t - a,
{
    if a < t {
        lemma_first_above_exact(s, last, a + 1, t);
    }
}

proof fn lemma_find_live_exact(s: FeedState, now: u64, a: int, t: int)
    requires
        0 <= a <= t <= s.relayers.spec_len(),
        forall|j: int| a <= j < t ==> !s.spec_live(#[trigger] s.relayers.key_at(j), now),
        t < s.relayers.spec_len() ==> s.spec_live(s.relayers.key_at(t), now),
    ensures
        find_live_from(s, now, a) == if t < s.relayers.spec_len() {
            Some(t)
        } else {
            None::<int>
        },
    decreases t - a,
{
    if a < t {
        lemma_find_live_exact(s, now, a + 1, t);
    }
}

/// Rotation fairness: with every member live, the scheduler steps through
/// the registry in identity order — the member after the cursor is picked,
/// and from the last member it wraps to the first.
pub proof fn lemma_rotation_fairness(s: FeedState, now: u64, i: int)
    requires
        s.relayers.wf(),
        s.relayers.spec_len() > 0,
        forall|j: int|
            0 <= j < s.relayers.spec_len() ==> s.spec_live(#[trigger] s.relayers.key_at(j), now),
        s.last_relayer is Some,
        0 <= i < s.relayers.spec_len(),
        s.last_relayer->0@ == s.relayers.key_at(i),
    ensures
        i + 1 < s.relayers.spec_len() ==> selected_relayer(s, now) == Some(
            s.relayers.key_at(i + 1),
        ),
        i + 1 == s.relayers.spec_len() ==> selected_relayer(s, now) == Some(s.relayers.key_at(0)),
{
    let len = s.relayers.spec_len() as int;
    let l = s.relayers.key_at(i);
    assert forall|j: int| 0 <= j < i + 1 implies !lex_lt(l, #[trigger] s.relayers.key_at(j)) by {
        if j < i {
            assert(lex_lt(s.relayers.key_at(j), l));
            lemma_lex_trichotomy(s.relayers.key_at(j), l);
        } else {
            lemma_lex_trichotomy(l, l);
        }
    }
    lemma_first_above_exact(s, l, 0, i + 1);
    if i + 1 < len {
        lemma_find_live_exact(s, now, i + 1, i + 1);
    } else {
        lemma_find_live_exact(s, now, 0, 0);
    }
}

/// The first selection, before any cursor exists, picks the first live
/// member in registry order.
pub proof fn lemma_rotation_initial(s: FeedState, now: u64)
    requires
        s.relayers.wf(),
        s.relayers.spec_len() > 0,
        s.last_relayer is None,
        s.spec_live(s.relayers.key_at(0), now),
    ensures
        selected_relayer(s, now) == Some(s.relayers.key_at(0)),
{
    lemma_find_live_exact(s, now, 0, 0);
}

/// Liveness skip: when exactly one member is live, every selection returns
/// it, wherever the cursor stands.
pub proof fn lemma_rotation_single_live(s: FeedState, now: u64, m: int)
    requires
        s.relayers.wf(),
        0 <= m < s.relayers.spec_len(),
        s.spec_live(s.relayers.key_at(m), now),
        forall|j: int|
            0 <= j < s.relayers.spec_len() && j != m ==> !s.spec_live(
                #[trigger] s.relayers.key_at(j),
                now,
            ),
    ensures
        selected_relayer(s, now) == Some(s.relayers.key_at(m)),
{
    let len = s.relayers.spec_len() as int;
    let start = resume_index(s);
    match s.last_relayer {
        Some(l) => {
            lemma_first_above_bounds(s, l@, 0);
        },
        None => {},
    }
    if start <= m {
        lemma_find_live_exact(s, now, start, m);
    } else {
        lemma_find_live_exact(s, now, start, len);
        lemma_find_live_exact(s, now, 0, m);
    }
}

/// Exhaustion: with no live member the scheduler selects nothing.
pub proof fn lemma_rotation_exhaustion(s: FeedState, now: u64)
    requires
        s.relayers.wf(),
        forall|j: int|
            0 <= j < s.relayers.spec_len() ==> !s.spec_live(#[trigger] s.relayers.key_at(j), now),
    ensures
        selected_relayer(s, now) is None,
{
    let len = s.relayers.spec_len() as int;
    let start = resume_index(s);
    match s.last_relayer {
        Some(l) => {
            lemma_first_above_bounds(s, l@, 0);
        },
        None => {},
    }
    lemma_find_live_exact(s, now, start, len);
    lemma_find_live_exact(s, now, 0, len);
}

} // verus!
