//! Deduplication of genre labels: the flattened label list keeps the first
//! occurrence of each value and drops the later ones.
use vstd::prelude::*;

use itertools::Itertools;

verus! {

/// `s` with every later duplicate removed: the first occurrence of each
/// element survives, in its original position relative to the others.
pub open spec fn dedup_first(s: Seq<Seq<char>>) -> Seq<Seq<char>>
    decreases s.len(),
{
    if s.len() == 0 {
        Seq::empty()
    } else if s.drop_last().contains(s.last()) {
        dedup_first(s.drop_last())
    } else {
        dedup_first(s.drop_last()).push(s.last())
    }
}

/// Relies on itertools' `Itertools::unique`: it yields the elements of the
/// input in order, keeping the first occurrence of each and skipping the
/// later ones, with duplicates detected by `Eq` on `String`.
#[verifier::external_body]
pub(crate) fn unique_strings(v: Vec<String>) -> (r: Vec<String>)
    ensures
        r.deep_view() == dedup_first(v.deep_view()),
{
    v.into_iter().unique().collect()
}

/// An element occurs in the deduplicated sequence exactly when it occurs in
/// the input.
pub proof fn lemma_dedup_first_membership(s: Seq<Seq<char>>, x: Seq<char>)
    ensures
        dedup_first(s).contains(x) <==> s.contains(x),
    decreases s.len(),
{
    if s.len() > 0 {
        let rest = s.drop_last();
        let d = dedup_first(rest);
        lemma_dedup_first_membership(rest, x);
        if s.contains(x) {
            let i = choose|i: int| 0 <= i < s.len() && s[i] == x;
            if i < s.len() - 1 {
                assert(rest[i] == x);
                assert(rest.contains(x));
            } else {
                assert(x == s.last());
            }
            if rest.contains(s.last()) {
                if x == s.last() {
                    assert(rest.contains(x));
                }
                assert(dedup_first(s) == d);
            } else {
                if rest.contains(x) {
                    assert(d.contains(x));
                    let j = choose|j: int| 0 <= j < d.len() && d[j] == x;
                    assert(d.push(s.last())[j] == x);
                } else {
                    assert(d.push(s.last())[d.len() as int] == x);
                }
                assert(dedup_first(s).contains(x));
            }
        }
        if dedup_first(s).contains(x) {
            if rest.contains(s.last()) {
                assert(d.contains(x));
                assert(rest.contains(x));
                let i = choose|i: int| 0 <= i < rest.len() && rest[i] == x;
                assert(s[i] == x);
            } else {
                let i = choose|i: int|
                    0 <= i < d.push(s.last()).len() && d.push(s.last())[i] == x;
                if i < d.len() {
                    assert(d.contains(x));
                    assert(rest.contains(x));
                    let j = choose|j: int| 0 <= j < rest.len() && rest[j] == x;
                    assert(s[j] == x);
                } else {
                    assert(x == s.last());
                    assert(s[s.len() - 1] == x);
                }
            }
            assert(s.contains(x));
        }
    }
}

/// Deduplication leaves no duplicates behind.
pub proof fn lemma_dedup_first_no_duplicates(s: Seq<Seq<char>>)
    ensures
        dedup_first(s).no_duplicates(),
    decreases s.len(),
{
    if s.len() > 0 {
        lemma_dedup_first_no_duplicates(s.drop_last());
        if !s.drop_last().contains(s.last()) {
            let d = dedup_first(s.drop_last());
            lemma_dedup_first_membership(s.drop_last(), s.last());
            assert(!d.contains(s.last()));
            assert forall|i: int, j: int|
                0 <= i < d.push(s.last()).len() && 0 <= j < d.push(s.last()).len() && i != j
                implies d.push(s.last())[i] != d.push(s.last())[j] by {
                if i < d.len() && j < d.len() {
                    assert(d[i] == d.push(s.last())[i]);
                    assert(d[j] == d.push(s.last())[j]);
                } else if i < d.len() {
                    assert(d.contains(d[i]));
                } else if j < d.len() {
                    assert(d.contains(d[j]));
                }
            }
        }
    }
}

/// Deduplication keeps exactly the values of the input: the two sequences
/// read as the same set.
pub proof fn lemma_dedup_first_same_set(s: Seq<Seq<char>>)
    ensures
        dedup_first(s).to_set() == s.to_set(),
{
    assert forall|x: Seq<char>| #[trigger] dedup_first(s).to_set().contains(x) implies s.to_set().contains(x) by {
        lemma_dedup_first_membership(s, x);
    }
    assert forall|x: Seq<char>| #[trigger] s.to_set().contains(x) implies dedup_first(s).to_set().contains(x) by {
        lemma_dedup_first_membership(s, x);
    }
    assert(dedup_first(s).to_set() =~= s.to_set());
}

} // verus!
