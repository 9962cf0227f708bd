//! String-keyed association lists kept strictly sorted by the lexicographic
//! order of `crate::text`. They model the contract ledger's per-key maps:
//! sortedness makes keys unique and gives the registry scan a stable, total
//! iteration order.

use vstd::prelude::*;
use crate::text::{lex_lt, lemma_lex_trichotomy, lemma_lex_trans, str_eq, str_lex_lt};

verus! {

pub struct KvList<V> {
    pub entries: Vec<(String, V)>,
}

impl<V> KvList<V> {
    /// Keys strictly ascending, hence unique.
    pub open spec fn wf(&self) -> bool {
        forall|i: int, j: int|
            0 <= i < j < self.entries@.len() ==> lex_lt(
                #[trigger] self.entries@[i].0@,
                #[trigger] self.entries@[j].0@,
            )
    }

    pub open spec fn spec_len(&self) -> nat {
        self.entries@.len()
    }

    pub open spec fn key_at(&self, i: int) -> Seq<char> {
        self.entries@[i].0@
    }

    pub open spec fn value_at(&self, i: int) -> V {
        self.entries@[i].1
    }

    pub open spec fn contains_spec(&self, k: Seq<char>) -> bool {
        exists|i: int| 0 <= i < self.spec_len() && self.key_at(i) == k
    }

    pub open spec fn index_of(&self, k: Seq<char>) -> int {
        choose|i: int| 0 <= i < self.spec_len() && self.key_at(i) == k
    }

    /// The binding of `k`, if any.
    pub open spec fn spec_get(&self, k: Seq<char>) -> Option<V> {
        if self.contains_spec(k) {
            Some(self.value_at(self.index_of(k)))
        } else {
            None
        }
    }

    /// In a well-formed list the binding at any index is the binding.
    pub proof fn lemma_get_at_index(&self, i: int)
        requires
            self.wf(),
            0 <= i < self.spec_len(),
        ensures
            self.spec_get(self.key_at(i)) == Some(self.value_at(i)),
    {
        let k = self.key_at(i);
        assert(self.contains_spec(k));
        let j = self.index_of(k);
        if i < j {
            assert(lex_lt(self.key_at(i), self.key_at(j)));
            lemma_lex_trichotomy(self.key_at(i), self.key_at(j));
        } else if j < i {
            assert(lex_lt(self.key_at(j), self.key_at(i)));
            lemma_lex_trichotomy(self.key_at(j), self.key_at(i));
        }
        assert(i == j);
    }

    pub proof fn lemma_absent(&self, k: Seq<char>)
        requires
            forall|i: int| 0 <= i < self.spec_len() ==> #[trigger] self.key_at(i) != k,
        ensures
            self.spec_get(k) is None,
    {
    }

    pub fn empty() -> (r: Self)
        ensures
            r.wf(),
            r.spec_len() == 0,
            forall|k: Seq<char>| #[trigger] r.spec_get(k) is None,
    {
        KvList { entries: Vec::new() }
    }

    pub fn list_len(&self) -> (n: usize)
        ensures
            n == self.spec_len(),
    {
        self.entries.len()
    }

    /// Looks `k` up.
    pub fn get(&self, k: &str) -> (r: Option<&V>)
        requires
            self.wf(),
        ensures
            match r {
                Some(v) => self.spec_get(k@) == Some(*v),
                None => self.spec_get(k@) is None,
            },
    {
        let n = self.entries.len();
        let mut i: usize = 0;
        while i < n
            invariant
                i <= n,
                n == self.spec_len(),
                self.wf(),
                forall|j: int| 0 <= j < i ==> #[trigger] self.key_at(j) != k@,
            decreases n - i,
        {
            if str_eq(self.entries[i].0.as_str(), k) {
                proof {
                    self.lemma_get_at_index(i as int);
                }
                return Some(&self.entries[i].1);
            }
            i = i + 1;
        }
        proof {
            self.lemma_absent(k@);
        }
        None
    }

    pub fn contains_key(&self, k: &str) -> (r: bool)
        requires
            self.wf(),
        ensures
            r == self.contains_spec(k@),
    {
        match self.get(k) {
            Some(_) => true,
            None => false,
        }
    }

    /// Binds `k` to `v`, inserting or overwriting; every other binding is
    /// kept.
    pub fn set(&mut self, k: String, v: V)
        requires
            old(self).wf(),
        ensures
            final(self).wf(),
            final(self).spec_get(k@) == Some(v),
            forall|q: Seq<char>|
                q != k@ ==> #[trigger] final(self).spec_get(q) == old(self).spec_get(q),
            final(self).spec_len() <= old(self).spec_len() + 1,
    {
        let ghost orig = *self;
        let n = self.entries.len();
        let mut i: usize = 0;
        while i < n && str_lex_lt(self.entries[i].0.as_str(), k.as_str())
            invariant
                i <= n,
                *self == orig,
                orig == *old(self),
                n == self.spec_len(),
                self.wf(),
                forall|j: int| 0 <= j < i ==> lex_lt(#[trigger] self.key_at(j), k@),
            decreases n - i,
        {
            i = i + 1;
        }
        // Here every key before `i` is below `k`, and if `i` is in range the
        // key there is not below `k`.
        if i < n && str_eq(self.entries[i].0.as_str(), k.as_str()) {
            self.entries.remove(i);
            self.entries.insert(i, (k, v));
            proof {
                self.lemma_replace_preserves(orig, i as int, v);
            }
        } else {
            proof {
                if i < n {
                    lemma_lex_trichotomy(orig.key_at(i as int), k@);
                }
            }
            self.entries.insert(i, (k, v));
            proof {
                self.lemma_insert_preserves(orig, i as int, v);
            }
        }
    }

    proof fn lemma_insert_preserves(&self, orig: KvList<V>, i: int, v: V)
        requires
            orig.wf(),
            0 <= i <= orig.spec_len(),
            self.entries@ =~= orig.entries@.insert(i, self.entries@[i]),
            forall|j: int| 0 <= j < i ==> lex_lt(#[trigger] orig.key_at(j), self.key_at(i)),
            i < orig.spec_len() ==> lex_lt(self.key_at(i), orig.key_at(i)),
            self.value_at(i) == v,
        ensures
            self.wf(),
            self.spec_get(self.key_at(i)) == Some(v),
            forall|q: Seq<char>|
                q != self.key_at(i) ==> #[trigger] self.spec_get(q) == orig.spec_get(q),
    {
        let k = self.key_at(i);
        orig.entries@.insert_ensures(i, self.entries@[i]);
        assert(self.entries@.len() == orig.entries@.len() + 1);
        assert(forall|m: int| 0 <= m < i ==> self.entries@[m] == orig.entries@[m]);
        assert(forall|m: int|
            i < m < self.entries@.len() ==> self.entries@[m] == orig.entries@[m - 1]);
        assert forall|j: int| i <= j < orig.spec_len() implies lex_lt(
            k,
            #[trigger] orig.key_at(j),
        ) by {
            if j > i {
                lemma_lex_trans(k, orig.key_at(i), orig.key_at(j));
            }
        }
        assert forall|p: int, q: int|
            0 <= p < q < self.entries@.len() implies lex_lt(
            #[trigger] self.entries@[p].0@,
            #[trigger] self.entries@[q].0@,
        ) by {
            if q < i {
                assert(self.entries@[p] == orig.entries@[p]);
                assert(self.entries@[q] == orig.entries@[q]);
                assert(lex_lt(orig.key_at(p), orig.key_at(q)));
            } else if p < i && q == i {
                assert(self.entries@[p] == orig.entries@[p]);
                assert(lex_lt(orig.key_at(p), k));
            } else if p < i && q > i {
                assert(self.entries@[p] == orig.entries@[p]);
                assert(self.entries@[q] == orig.entries@[q - 1]);
                assert(lex_lt(orig.key_at(p), k));
                assert(lex_lt(k, orig.key_at(q - 1)));
                lemma_lex_trans(orig.key_at(p), k, orig.key_at(q - 1));
            } else if p == i {
                assert(self.entries@[q] == orig.entries@[q - 1]);
                assert(lex_lt(k, orig.key_at(q - 1)));
            } else {
                assert(self.entries@[p] == orig.entries@[p - 1]);
                assert(self.entries@[q] == orig.entries@[q - 1]);
                assert(lex_lt(orig.key_at(p - 1), orig.key_at(q - 1)));
            }
        }
        self.lemma_get_at_index(i);
        assert forall|q: Seq<char>| q != k implies #[trigger] self.spec_get(q)
            == orig.spec_get(q) by {
            if orig.contains_spec(q) {
                let j = orig.index_of(q);
                if j < i {
                    assert(self.entries@[j] == orig.entries@[j]);
                    assert(self.key_at(j) == q);
                    self.lemma_get_at_index(j);
                } else {
                    assert(self.entries@[j + 1] == orig.entries@[j]);
                    assert(self.key_at(j + 1) == q);
                    self.lemma_get_at_index(j + 1);
                }
                orig.lemma_get_at_index(j);
            } else if self.contains_spec(q) {
                let j = self.index_of(q);
                assert(self.key_at(j) == q);
                if j < i {
                    assert(self.entries@[j] == orig.entries@[j]);
                    assert(orig.key_at(j) == q);
                    orig.lemma_get_at_index(j);
                } else {
                    assert(j != i);
                    assert(self.entries@[j] == orig.entries@[j - 1]);
                    assert(orig.key_at(j - 1) == q);
                    orig.lemma_get_at_index(j - 1);
                }
            }
        }
    }

    proof fn lemma_replace_preserves(&self, orig: KvList<V>, i: int, v: V)
        requires
            orig.wf(),
            0 <= i < orig.spec_len(),
            self.entries@ =~= orig.entries@.update(i, self.entries@[i]),
            self.key_at(i) == orig.key_at(i),
            self.value_at(i) == v,
        ensures
            self.wf(),
            self.spec_get(self.key_at(i)) == Some(v),
            forall|q: Seq<char>|
                q != self.key_at(i) ==> #[trigger] self.spec_get(q) == orig.spec_get(q),
    {
        assert(self.wf());
        self.lemma_get_at_index(i);
        assert forall|q: Seq<char>| q != self.key_at(i) implies #[trigger] self.spec_get(q)
            == orig.spec_get(q) by {
            if orig.contains_spec(q) {
                let j = orig.index_of(q);
                assert(self.key_at(j) == q);
                self.lemma_get_at_index(j);
                orig.lemma_get_at_index(j);
            } else if self.contains_spec(q) {
                let j = self.index_of(q);
                assert(orig.key_at(j) == q);
                orig.lemma_get_at_index(j);
            }
        }
    }

    /// Unbinds `k`; every other binding is kept. Removing an absent key is a
    /// no-op.
    pub fn unset(&mut self, k: &str)
        requires
            old(self).wf(),
        ensures
            final(self).wf(),
            final(self).spec_get(k@) is None,
            forall|q: Seq<char>|
                q != k@ ==> #[trigger] final(self).spec_get(q) == old(self).spec_get(q),
    {
        let ghost orig = *self;
        let n = self.entries.len();
        let mut i: usize = 0;
        while i < n
            invariant
                i <= n,
                *self == orig,
                orig == *old(self),
                n == self.spec_len(),
                self.wf(),
                forall|j: int| 0 <= j < i ==> #[trigger] self.key_at(j) != k@,
            decreases n - i,
        {
            if str_eq(self.entries[i].0.as_str(), k) {
                self.entries.remove(i);
                proof {
                    self.lemma_remove_preserves(orig, i as int, k@);
                }
                return ;
            }
            i = i + 1;
        }
        proof {
            self.lemma_absent(k@);
        }
    }

    proof fn lemma_remove_preserves(&self, orig: KvList<V>, i: int, k: Seq<char>)
        requires
            orig.wf(),
            0 <= i < orig.spec_len(),
            orig.key_at(i) == k,
            forall|j: int| 0 <= j < i ==> #[trigger] orig.key_at(j) != k,
            self.entries@ =~= orig.entries@.remove(i),
        ensures
            self.wf(),
            self.spec_get(k) is None,
            forall|q: Seq<char>|
                q != k ==> #[trigger] self.spec_get(q) == orig.spec_get(q),
    {
        orig.entries@.remove_ensures(i);
        assert(self.entries@.len() == orig.entries@.len() - 1);
        assert(forall|m: int| 0 <= m < i ==> self.entries@[m] == orig.entries@[m]);
        assert(forall|m: int|
            i <= m < self.entries@.len() ==> self.entries@[m] == orig.entries@[m + 1]);
        assert forall|p: int, q: int|
            0 <= p < q < self.entries@.len() implies lex_lt(
            #[trigger] self.entries@[p].0@,
            #[trigger] self.entries@[q].0@,
        ) by {
            if q < i {
                assert(self.entries@[p] == orig.entries@[p]);
                assert(self.entries@[q] == orig.entries@[q]);
                assert(lex_lt(orig.key_at(p), orig.key_at(q)));
            } else if p < i {
                assert(self.entries@[p] == orig.entries@[p]);
                assert(self.entries@[q] == orig.entries@[q + 1]);
                assert(lex_lt(orig.key_at(p), orig.key_at(q + 1)));
            } else {
                assert(self.entries@[p] == orig.entries@[p + 1]);
                assert(self.entries@[q] == orig.entries@[q + 1]);
                assert(lex_lt(orig.key_at(p + 1), orig.key_at(q + 1)));
            }
        }
        assert forall|j: int| 0 <= j < self.spec_len() implies #[trigger] self.key_at(j)
            != k by {
            if j < i {
                assert(self.entries@[j] == orig.entries@[j]);
                assert(orig.key_at(j) != k);
            } else {
                assert(self.entries@[j] == orig.entries@[j + 1]);
                assert(lex_lt(orig.key_at(i), orig.key_at(j + 1)));
                lemma_lex_trichotomy(orig.key_at(i), orig.key_at(j + 1));
            }
        }
        self.lemma_absent(k);
        assert forall|q: Seq<char>| q != k implies #[trigger] self.spec_get(q)
            == orig.spec_get(q) by {
            if orig.contains_spec(q) {
                let j = orig.index_of(q);
                assert(orig.key_at(j) == q);
                assert(j != i);
                if j < i {
                    assert(self.entries@[j] == orig.entries@[j]);
                    assert(self.key_at(j) == q);
                    self.lemma_get_at_index(j);
                } else {
                    assert(self.entries@[j - 1] == orig.entries@[j]);
                    assert(self.key_at(j - 1) == q);
                    self.lemma_get_at_index(j - 1);
                }
                orig.lemma_get_at_index(j);
            } else if self.contains_spec(q) {
                let j = self.index_of(q);
                assert(self.key_at(j) == q);
                if j < i {
                    assert(self.entries@[j] == orig.entries@[j]);
                    assert(orig.key_at(j) == q);
                    orig.lemma_get_at_index(j);
                } else {
                    assert(self.entries@[j] == orig.entries@[j + 1]);
                    assert(orig.key_at(j + 1) == q);
                    orig.lemma_get_at_index(j + 1);
                }
            }
        }
    }
}

} // verus!
