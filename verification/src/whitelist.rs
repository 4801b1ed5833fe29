use crate::ident::Ident;
use vstd::prelude::*;

verus! {

/// First-seen-order deduplication: keeps the earliest occurrence of every
/// identifier and drops the later repeats.
pub open spec fn spec_dedup(s: Seq<Ident>) -> Seq<Ident>
    decreases s.len(),
{
    if s.len() == 0 {
        Seq::empty()
    } else {
        let rest = spec_dedup(s.drop_last());
        if rest.contains(s.last()) {
            rest
        } else {
            rest.push(s.last())
        }
    }
}

/// True exactly when `v` holds `x`.
pub fn contains_ident(v: &Vec<Ident>, x: Ident) -> (r: bool)
    ensures
        r == v@.contains(x),
{
    let mut i: usize = 0;
    while i < v.len()
        invariant
            i <= v@.len(),
            forall|k: int| 0 <= k < i ==> v@[k] != x,
        decreases v@.len() - i,
    {
        if v[i] == x {
            assert(v@[i as int] == x);
            return true;
        }
        i = i + 1;
    }
    assert(!v@.contains(x));
    false
}

/// The position of the first occurrence of `x` in `v`, if any.
pub fn find_ident(v: &Vec<Ident>, x: Ident) -> (r: Option<usize>)
    ensures
        match r {
            Some(i) => {
                &&& i < v@.len()
                &&& v@[i as int] == x
                &&& forall|k: int| 0 <= k < i ==> v@[k] != x
            },
            None => !v@.contains(x),
        },
{
    let mut i: usize = 0;
    while i < v.len()
        invariant
            i <= v@.len(),
            forall|k: int| 0 <= k < i ==> v@[k] != x,
        decreases v@.len() - i,
    {
        if v[i] == x {
            return Some(i);
        }
        i = i + 1;
    }
    assert(!v@.contains(x));
    None
}

/// The whitelist `init` stores: the input list with duplicates dropped,
/// earliest occurrences kept in order.
pub fn dedup_idents(input: &Vec<Ident>) -> (r: Vec<Ident>)
    ensures
        r@ == spec_dedup(input@),
{
    let mut uniq: Vec<Ident> = Vec::new();
    let mut i: usize = 0;
    while i < input.len()
        invariant
            i <= input@.len(),
            uniq@ == spec_dedup(input@.take(i as int)),
        decreases input@.len() - i,
    {
        let a = input[i];
        proof {
            assert(input@.take(i + 1 as int).drop_last() =~= input@.take(i as int));
            assert(input@.take(i + 1 as int).last() == input@[i as int]);
        }
        if !contains_ident(&uniq, a) {
            uniq.push(a);
        }
        i = i + 1;
    }
    proof {
        assert(input@.take(input@.len() as int) =~= input@);
    }
    uniq
}

/// Membership is unchanged across a drop of the last element plus that
/// element itself.
proof fn lemma_contains_drop_last(s: Seq<Ident>, x: Ident)
    requires
        s.len() > 0,
    ensures
        s.contains(x) <==> (s.drop_last().contains(x) || x == s.last()),
{
    if s.contains(x) {
        let i = choose|i: int| 0 <= i < s.len() && s[i] == x;
        if i < s.len() - 1 {
            assert(s.drop_last()[i] == x);
        }
    }
    if s.drop_last().contains(x) {
        let i = choose|i: int| 0 <= i < s.drop_last().len() && s.drop_last()[i] == x;
        assert(s[i] == x);
    }
    if x == s.last() {
        assert(s[s.len() - 1] == x);
    }
}

/// Idempotent membership: deduplication keeps each identifier exactly once
/// (no duplicates remain) and keeps exactly the identifiers of the input
/// (nothing is added or lost).
pub proof fn lemma_dedup_membership(s: Seq<Ident>)
    ensures
        spec_dedup(s).no_duplicates(),
        forall|x: Ident| spec_dedup(s).contains(x) <==> s.contains(x),
    decreases s.len(),
{
    if s.len() == 0 {
        assert forall|x: Ident| !spec_dedup(s).contains(x) && !s.contains(x) by {
            assert(spec_dedup(s).len() == 0);
        }
    } else {
        let rest = spec_dedup(s.drop_last());
        lemma_dedup_membership(s.drop_last());
        assert forall|x: Ident| spec_dedup(s).contains(x) <==> s.contains(x) by {
            lemma_contains_drop_last(s, x);
            if rest.contains(s.last()) {
                assert(spec_dedup(s) == rest);
            } else {
                lemma_contains_push(rest, s.last(), x);
            }
        }
        if !rest.contains(s.last()) {
            lemma_push_no_duplicates(rest, s.last());
        }
    }
}

/// The index of the first occurrence of `x` in `s`.
pub open spec fn first_at(s: Seq<Ident>, x: Ident) -> int
    recommends
        s.contains(x),
    decreases s.len(),
{
    if s.len() == 0 {
        0
    } else if s.drop_last().contains(x) {
        first_at(s.drop_last(), x)
    } else {
        s.len() - 1
    }
}

/// The first occurrence is a well-defined position: it holds `x` and nothing
/// before it does.
pub proof fn lemma_first_at_is_first(s: Seq<Ident>, x: Ident)
    requires
        s.contains(x),
    ensures
        0 <= first_at(s, x) < s.len(),
        s[first_at(s, x)] == x,
        forall|k: int| 0 <= k < first_at(s, x) ==> s[k] != x,
    decreases s.len(),
{
    lemma_contains_drop_last(s, x);
    if s.drop_last().contains(x) {
        lemma_first_at_is_first(s.drop_last(), x);
        let f = first_at(s, x);
        assert(s.drop_last()[f] == x);
        assert forall|k: int| 0 <= k < f implies s[k] != x by {
            assert(s.drop_last()[k] == s[k]);
        }
    } else {
        assert(x == s.last());
        assert forall|k: int| 0 <= k < s.len() - 1 implies s[k] != x by {
            if s[k] == x {
                assert(s.drop_last()[k] == x);
            }
        }
    }
}

/// First-seen order: deduplication lists the identifiers in the order of
/// their first occurrences in the input.
pub proof fn lemma_dedup_first_seen_order(s: Seq<Ident>)
    ensures
        forall|i: int, j: int|
            0 <= i < j < spec_dedup(s).len() ==> first_at(s, spec_dedup(s)[i]) < first_at(
                s,
                spec_dedup(s)[j],
            ),
    decreases s.len(),
{
    if s.len() == 0 {
    } else {
        let d = spec_dedup(s);
        let rest = spec_dedup(s.drop_last());
        lemma_dedup_first_seen_order(s.drop_last());
        lemma_dedup_membership(s.drop_last());
        assert forall|x: Ident| rest.contains(x) implies (first_at(s, x) == first_at(
            s.drop_last(),
            x,
        ) && first_at(s, x) < s.len() - 1) by {
            assert(s.drop_last().contains(x));
            lemma_first_at_is_first(s.drop_last(), x);
        }
        if rest.contains(s.last()) {
            assert(d == rest);
            assert forall|i: int, j: int| 0 <= i < j < d.len() implies first_at(s, d[i])
                < first_at(s, d[j]) by {
                assert(rest[i] == d[i] && rest[j] == d[j]);
                assert(rest.contains(rest[i]));
                assert(rest.contains(rest[j]));
            }
        } else {
            assert(d == rest.push(s.last()));
            assert(first_at(s, s.last()) == s.len() - 1);
            assert forall|i: int, j: int| 0 <= i < j < d.len() implies first_at(s, d[i])
                < first_at(s, d[j]) by {
                assert(d[i] == rest[i]);
                assert(rest.contains(rest[i]));
                if j < rest.len() {
                    assert(d[j] == rest[j]);
                    assert(rest.contains(rest[j]));
                } else {
                    assert(d[j] == s.last());
                }
            }
        }
    }
}

/// Membership across a push: the pushed element joins, nothing else changes.
pub proof fn lemma_contains_push(s: Seq<Ident>, v: Ident, x: Ident)
    ensures
        s.push(v).contains(x) <==> (s.contains(x) || x == v),
{
    if s.push(v).contains(x) {
        let i = choose|i: int| 0 <= i < s.push(v).len() && s.push(v)[i] == x;
        if i < s.len() {
            assert(s[i] == x);
        }
    }
    if s.contains(x) {
        let i = choose|i: int| 0 <= i < s.len() && s[i] == x;
        assert(s.push(v)[i] == x);
    }
    if x == v {
        assert(s.push(v)[s.len() as int] == x);
    }
}

/// Pushing a non-member preserves freedom from duplicates.
pub proof fn lemma_push_no_duplicates(s: Seq<Ident>, v: Ident)
    requires
        s.no_duplicates(),
        !s.contains(v),
    ensures
        s.push(v).no_duplicates(),
{
    assert forall|i: int, j: int|
        0 <= i < s.push(v).len() && 0 <= j < s.push(v).len() && i != j implies s.push(v)[i]
        != s.push(v)[j] by {
        if i < s.len() && j < s.len() {
        } else if j == s.len() {
            assert(s.push(v)[j] == v);
            assert(s.push(v)[i] == s[i]);
            if s[i] == v {
                assert(s.contains(v));
            }
        } else {
            assert(s.push(v)[i] == v);
            assert(s.push(v)[j] == s[j]);
            if s[j] == v {
                assert(s.contains(v));
            }
        }
    }
}

/// Removing an element preserves freedom from duplicates.
pub proof fn lemma_remove_no_duplicates(s: Seq<Ident>, i: int)
    requires
        s.no_duplicates(),
        0 <= i < s.len(),
    ensures
        s.remove(i).no_duplicates(),
{
    assert forall|p: int, q: int|
        0 <= p < s.remove(i).len() && 0 <= q < s.remove(i).len() && p != q implies s.remove(i)[p]
        != s.remove(i)[q] by {
        let p0: int = if p < i {
            p
        } else {
            p + 1
        };
        let q0: int = if q < i {
            q
        } else {
            q + 1
        };
        assert(s.remove(i)[p] == s[p0]);
        assert(s.remove(i)[q] == s[q0]);
    }
}

/// Copies a list of identifiers.
pub fn copy_idents(v: &Vec<Ident>) -> (r: Vec<Ident>)
    ensures
        r@ == v@,
{
    let mut out: Vec<Ident> = Vec::new();
    let mut i: usize = 0;
    while i < v.len()
        invariant
            i <= v@.len(),
            out@ == v@.take(i as int),
        decreases v@.len() - i,
    {
        out.push(v[i]);
        proof {
            assert(out@ =~= v@.take(i + 1 as int));
        }
        i = i + 1;
    }
    proof {
        assert(v@.take(v@.len() as int) =~= v@);
    }
    out
}

} // verus!
