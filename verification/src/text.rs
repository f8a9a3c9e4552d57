//! Small verified helpers on strings, stated over their views as sequences of characters.

use vstd::prelude::*;
use vstd::string::*;

verus! {

/// Where the part of `s` behind its last `sep` begins: the length of the longest prefix
/// of `s` that ends in `sep`, and 0 where `s` holds no `sep`.
pub open spec fn tail_start(s: Seq<char>, sep: char) -> int
    decreases s.len(),
{
    if s.len() == 0 {
        0
    } else if s.last() == sep {
        s.len() as int
    } else {
        tail_start(s.drop_last(), sep)
    }
}

/// The part of `s` behind its last `sep`; the whole of `s` where it holds no `sep`.
pub open spec fn after_last(s: Seq<char>, sep: char) -> Seq<char> {
    s.subrange(tail_start(s, sep), s.len() as int)
}

/// `tail_start` is the one position `k` with no `sep` from `k` on and a `sep` just before
/// `k`, unless `k` is 0.
pub proof fn lemma_tail_start(s: Seq<char>, sep: char)
    ensures
        0 <= tail_start(s, sep) <= s.len(),
        forall|j: int| tail_start(s, sep) <= j < s.len() ==> s[j] != sep,
        tail_start(s, sep) == 0 || s[tail_start(s, sep) - 1] == sep,
    decreases s.len(),
{
    if s.len() > 0 && s.last() != sep {
        let t = s.drop_last();
        lemma_tail_start(t, sep);
        assert forall|j: int| tail_start(s, sep) <= j < s.len() implies s[j] != sep by {
            if j < t.len() {
                assert(s[j] == t[j]);
            }
        }
    }
}

/// Any position with no `sep` from it on and a `sep` just before it, unless it is 0, is
/// `tail_start`.
pub proof fn lemma_tail_start_unique(s: Seq<char>, sep: char, k: int)
    requires
        0 <= k <= s.len(),
        forall|j: int| k <= j < s.len() ==> s[j] != sep,
        k == 0 || s[k - 1] == sep,
    ensures
        tail_start(s, sep) == k,
    decreases s.len(),
{
    if s.len() > 0 && s.last() != sep {
        let t = s.drop_last();
        assert forall|j: int| k <= j < t.len() implies t[j] != sep by {
            assert(s[j] == t[j]);
        }
        lemma_tail_start_unique(t, sep, k);
    }
}

/// The text of `s` behind its last `sep`, as a new string.
pub fn text_after_last(s: &str, sep: char) -> (r: String)
    ensures
        r@ == after_last(s@, sep),
{
    let n: usize = s.unicode_len();
    let mut k: usize = n;
    while k > 0 && s.get_char(k - 1) != sep
        invariant
            k <= n,
            n == s@.len(),
            forall|j: int| k <= j < n ==> s@[j] != sep,
        decreases k,
    {
        k = k - 1;
    }
    proof {
        lemma_tail_start_unique(s@, sep, k as int);
    }
    String::from_str(s.substring_char(k, n))
}

/// `a` followed by `b`.
pub fn join_text(a: &str, b: &str) -> (r: String)
    ensures
        r@ == a@ + b@,
{
    let mut r = String::from_str(a);
    r.append(b);
    r
}

/// Whether two strings hold the same characters.
pub fn same_text(a: &str, b: &str) -> (r: bool)
    ensures
        r == (a@ == b@),
{
    let x = String::from_str(a);
    let y = String::from_str(b);
    x == y
}

/// `s` with every `from` in it replaced by `to`, found from the left and never inside
/// what was put in; `s` itself where `from` is empty.
pub open spec fn replace_all(s: Seq<char>, from: Seq<char>, to: Seq<char>) -> Seq<char>
    decreases s.len(),
{
    if from.len() == 0 || s.len() < from.len() {
        s
    } else if s.subrange(0, from.len() as int) == from {
        to + replace_all(s.subrange(from.len() as int, s.len() as int), from, to)
    } else {
        seq![s[0]] + replace_all(s.subrange(1, s.len() as int), from, to)
    }
}

/// Whether `from` stands in `s` at position `at`.
fn stands_at(s: &str, at: usize, from: &str) -> (r: bool)
    requires
        at + from@.len() <= s@.len(),
    ensures
        r == (s@.subrange(at as int, at + from@.len()) == from@),
{
    let n: usize = s.unicode_len();
    let m: usize = from.unicode_len();
    let mut j: usize = 0;
    while j < m
        invariant
            j <= m,
            m == from@.len(),
            n == s@.len(),
            at + m <= n,
            forall|k: int| 0 <= k < j ==> s@[at + k] == from@[k],
        decreases m - j,
    {
        if s.get_char(at + j) != from.get_char(j) {
            proof {
                assert(s@.subrange(at as int, at + m)[j as int] == s@[at + j]);
            }
            return false;
        }
        j = j + 1;
    }
    proof {
        assert(s@.subrange(at as int, at + m) =~= from@);
    }
    true
}

/// `s` with every `from` replaced by `to`.
pub fn replace_text(s: &str, from: &str, to: &str) -> (r: String)
    ensures
        r@ == replace_all(s@, from@, to@),
{
    let n: usize = s.unicode_len();
    let m: usize = from.unicode_len();
    if m == 0 {
        return String::from_str(s);
    }
    let mut r = String::new();
    let mut i: usize = 0;
    proof {
        assert(s@.subrange(0, n as int) =~= s@);
        assert(r@ + replace_all(s@, from@, to@) =~= replace_all(s@, from@, to@));
    }
    while i < n
        invariant
            i <= n,
            n == s@.len(),
            m == from@.len(),
            m > 0,
            r@ + replace_all(s@.subrange(i as int, n as int), from@, to@) == replace_all(
                s@,
                from@,
                to@,
            ),
        decreases n - i,
    {
        let ghost rest = s@.subrange(i as int, n as int);
        if n - i < m {
            r.append(s.substring_char(i, n));
            i = n;
            proof {
                assert(s@.subrange(n as int, n as int) =~= Seq::<char>::empty());
                assert(r@ + Seq::<char>::empty() =~= r@);
            }
        } else if stands_at(s, i, from) {
            proof {
                assert(rest.subrange(0, m as int) =~= s@.subrange(i as int, i + m));
                assert(rest.subrange(m as int, rest.len() as int) =~= s@.subrange(
                    i + m,
                    n as int,
                ));
                assert((r@ + to@) + replace_all(s@.subrange(i + m, n as int), from@, to@) =~= r@
                    + (to@ + replace_all(s@.subrange(i + m, n as int), from@, to@)));
            }
            r.append(to);
            i = i + m;
        } else {
            proof {
                assert(rest.subrange(0, m as int) =~= s@.subrange(i as int, i + m));
                assert(rest.subrange(1, rest.len() as int) =~= s@.subrange(i + 1, n as int));
                assert(s@.subrange(i as int, i + 1) =~= seq![rest[0]]);
                assert((r@ + seq![rest[0]]) + replace_all(
                    s@.subrange(i + 1, n as int),
                    from@,
                    to@,
                ) =~= r@ + (seq![rest[0]] + replace_all(
                    s@.subrange(i + 1, n as int),
                    from@,
                    to@,
                )));
            }
            r.append(s.substring_char(i, i + 1));
            i = i + 1;
        }
    }
    proof {
        assert(s@.subrange(n as int, n as int) =~= Seq::<char>::empty());
        assert(r@ + Seq::<char>::empty() =~= r@);
    }
    r
}

} // verus!
