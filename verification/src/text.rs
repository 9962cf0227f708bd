//! Total lexicographic order over identity and symbol strings, and decimal
//! rendering of unsigned integers. The registry scan of the rotation
//! scheduler and the correlation-id format both rest on these primitives.

use vstd::prelude::*;
use vstd::string::*;

verus! {

/// Strict lexicographic order on character sequences: a proper prefix comes
/// first, otherwise the first differing character (by scalar value) decides.
pub open spec fn lex_lt(a: Seq<char>, b: Seq<char>) -> bool
    decreases a.len(),
{
    if b.len() == 0 {
        false
    } else if a.len() == 0 {
        true
    } else if a[0] < b[0] {
        true
    } else if b[0] < a[0] {
        false
    } else {
        lex_lt(a.drop_first(), b.drop_first())
    }
}

/// Of `lex_lt(a, b)`, `a == b` and `lex_lt(b, a)`, exactly one holds.
pub proof fn lemma_lex_trichotomy(a: Seq<char>, b: Seq<char>)
    ensures
        lex_lt(a, b) ==> !lex_lt(b, a) && a != b,
        lex_lt(b, a) ==> !lex_lt(a, b) && a != b,
        a == b ==> !lex_lt(a, b) && !lex_lt(b, a),
        !lex_lt(a, b) && !lex_lt(b, a) ==> a == b,
    decreases a.len(),
{
    if a.len() == 0 || b.len() == 0 {
        if a.len() == 0 && b.len() == 0 {
            assert(a =~= b);
        } else {
            assert(a.len() != b.len());
            assert(a != b);
        }
    } else {
        if a[0] == b[0] {
            lemma_lex_trichotomy(a.drop_first(), b.drop_first());
            if a == b {
                assert(a.drop_first() =~= b.drop_first());
            }
            if !lex_lt(a, b) && !lex_lt(b, a) {
                assert(a.drop_first() =~= b.drop_first());
                assert(a =~= b) by {
                    assert(forall|j: int|
                        1 <= j < a.len() ==> a[j] == a.drop_first()[j - 1]);
                }
            }
            if lex_lt(a, b) {
                assert(a.drop_first() != b.drop_first());
                assert(a != b);
            }
            if lex_lt(b, a) {
                assert(a.drop_first() != b.drop_first());
                assert(a != b);
            }
        } else {
            assert(a[0] != b[0]);
            assert(a != b);
        }
    }
}

/// The lexicographic order is transitive.
pub proof fn lemma_lex_trans(a: Seq<char>, b: Seq<char>, c: Seq<char>)
    requires
        lex_lt(a, b),
        lex_lt(b, c),
    ensures
        lex_lt(a, c),
    decreases a.len(),
{
    if a.len() == 0 {
    } else {
        if a[0] == b[0] && b[0] == c[0] {
            lemma_lex_trans(a.drop_first(), b.drop_first(), c.drop_first());
        }
    }
}

proof fn lemma_skip_succ(s: Seq<char>, i: int)
    requires
        0 <= i < s.len(),
    ensures
        s.skip(i).drop_first() =~= s.skip(i + 1),
{
}

/// Three-way comparison realising `lex_lt`: -1 when `a` comes first, 0 when
/// the views are equal, 1 when `b` comes first.
pub fn str_compare(a: &str, b: &str) -> (r: i8)
    ensures
        -1 <= r <= 1,
        (r == -1) <==> lex_lt(a@, b@),
        (r == 0) <==> (a@ == b@),
        (r == 1) <==> lex_lt(b@, a@),
{
    let alen = a.unicode_len();
    let blen = b.unicode_len();
    let mut i: usize = 0;
    proof {
        assert(a@.skip(0) =~= a@);
        assert(b@.skip(0) =~= b@);
    }
    while i < alen && i < blen
        invariant
            i <= alen,
            i <= blen,
            alen == a@.len(),
            blen == b@.len(),
            lex_lt(a@, b@) == lex_lt(a@.skip(i as int), b@.skip(i as int)),
            lex_lt(b@, a@) == lex_lt(b@.skip(i as int), a@.skip(i as int)),
            forall|j: int| 0 <= j < i ==> a@[j] == b@[j],
        decreases alen - i,
    {
        let ca = a.get_char(i);
        let cb = b.get_char(i);
        if ca < cb {
            proof {
                assert(a@.skip(i as int)[0] == a@[i as int]);
                assert(b@.skip(i as int)[0] == b@[i as int]);
                lemma_lex_trichotomy(a@, b@);
            }
            return -1;
        }
        if cb < ca {
            proof {
                assert(a@.skip(i as int)[0] == a@[i as int]);
                assert(b@.skip(i as int)[0] == b@[i as int]);
                lemma_lex_trichotomy(a@, b@);
            }
            return 1;
        }
        proof {
            assert(a@.skip(i as int)[0] == a@[i as int]);
            assert(b@.skip(i as int)[0] == b@[i as int]);
            lemma_skip_succ(a@, i as int);
            lemma_skip_succ(b@, i as int);
        }
        i = i + 1;
    }
    if alen < blen {
        proof {
            assert(a@.skip(i as int).len() == 0);
            assert(b@.skip(i as int).len() > 0);
            lemma_lex_trichotomy(a@, b@);
        }
        -1
    } else if blen < alen {
        proof {
            assert(b@.skip(i as int).len() == 0);
            assert(a@.skip(i as int).len() > 0);
            lemma_lex_trichotomy(a@, b@);
        }
        1
    } else {
        proof {
            assert(a@.skip(i as int).len() == 0);
            assert(b@.skip(i as int).len() == 0);
            assert(a@ =~= b@);
            lemma_lex_trichotomy(a@, b@);
        }
        0
    }
}

/// True when `a` comes strictly before `b` in the lexicographic order.
pub fn str_lex_lt(a: &str, b: &str) -> (r: bool)
    ensures
        r == lex_lt(a@, b@),
{
    str_compare(a, b) == -1
}

/// True when the two strings hold the same characters.
pub fn str_eq(a: &str, b: &str) -> (r: bool)
    ensures
        r == (a@ == b@),
{
    str_compare(a, b) == 0
}

/// The character standing for a single decimal digit.
pub open spec fn digit_char(d: nat) -> char {
    if d == 0 {
        '0'
    } else if d == 1 {
        '1'
    } else if d == 2 {
        '2'
    } else if d == 3 {
        '3'
    } else if d == 4 {
        '4'
    } else if d == 5 {
        '5'
    } else if d == 6 {
        '6'
    } else if d == 7 {
        '7'
    } else if d == 8 {
        '8'
    } else {
        '9'
    }
}

/// The decimal rendering of `n`, most significant digit first, no leading
/// zeroes (a single `'0'` for zero).
pub open spec fn dec_digits(n: nat) -> Seq<char>
    decreases n,
{
    if n < 10 {
        seq![digit_char(n)]
    } else {
        dec_digits(n / 10).push(digit_char(n % 10))
    }
}

fn digit_string(d: u64) -> (s: String)
    requires
        d < 10,
    ensures
        s@ =~= seq![digit_char(d as nat)],
{
    let t: &str;
    if d == 0 {
        t = "0";
        proof {
            reveal_strlit("0");
            assert(t@ =~= seq![digit_char(d as nat)]);
        }
    } else if d == 1 {
        t = "1";
        proof {
            reveal_strlit("1");
            assert(t@ =~= seq![digit_char(d as nat)]);
        }
    } else if d == 2 {
        t = "2";
        proof {
            reveal_strlit("2");
            assert(t@ =~= seq![digit_char(d as nat)]);
        }
    } else if d == 3 {
        t = "3";
        proof {
            reveal_strlit("3");
            assert(t@ =~= seq![digit_char(d as nat)]);
        }
    } else if d == 4 {
        t = "4";
        proof {
            reveal_strlit("4");
            assert(t@ =~= seq![digit_char(d as nat)]);
        }
    } else if d == 5 {
        t = "5";
        proof {
            reveal_strlit("5");
            assert(t@ =~= seq![digit_char(d as nat)]);
        }
    } else if d == 6 {
        t = "6";
        proof {
            reveal_strlit("6");
            assert(t@ =~= seq![digit_char(d as nat)]);
        }
    } else if d == 7 {
        t = "7";
        proof {
            reveal_strlit("7");
            assert(t@ =~= seq![digit_char(d as nat)]);
        }
    } else if d == 8 {
        t = "8";
        proof {
            reveal_strlit("8");
            assert(t@ =~= seq![digit_char(d as nat)]);
        }
    } else {
        t = "9";
        proof {
            reveal_strlit("9");
            assert(t@ =~= seq![digit_char(d as nat)]);
        }
    }
    String::from_str(t)
}

/// Renders `n` in decimal, matching `dec_digits`.
pub fn u64_to_dec(n: u64) -> (s: String)
    ensures
        s@ == dec_digits(n as nat),
    decreases n,
{
    if n < 10 {
        let s = digit_string(n);
        proof {
            assert(s@ =~= dec_digits(n as nat));
        }
        s
    } else {
        let mut s = u64_to_dec(n / 10);
        let d = digit_string(n % 10);
        s.append(d.as_str());
        proof {
            assert(s@ =~= dec_digits(n as nat));
        }
        s
    }
}

} // verus!
