//! Sequence operations that several displays state their results with.

use vstd::prelude::*;

verus! {

/// The sequence with each run of equal neighbours kept once, as `Vec::dedup` leaves it.
pub open spec fn dedup_adjacent<A>(s: Seq<A>) -> Seq<A>
    decreases s.len(),
{
    if s.len() == 0 {
        s
    } else {
        let d = dedup_adjacent(s.drop_last());
        if d.len() > 0 && d.last() == s.last() {
            d
        } else {
            d.push(s.last())
        }
    }
}

/// Appending an item to a sequence appends it to the deduplicated sequence unless it
/// repeats the last item kept.
pub proof fn lemma_dedup_adjacent_push<A>(s: Seq<A>, x: A)
    ensures
        dedup_adjacent(s.push(x)) == (if dedup_adjacent(s).len() > 0 && dedup_adjacent(s).last() == x {
            dedup_adjacent(s)
        } else {
            dedup_adjacent(s).push(x)
        }),
{
    assert(s.push(x).drop_last() =~= s);
}

/// No two neighbours of a deduplicated sequence are equal.
pub proof fn lemma_dedup_adjacent_no_repeats<A>(s: Seq<A>)
    ensures
        forall|i: int|
            0 <= i < dedup_adjacent(s).len() - 1 ==> #[trigger] dedup_adjacent(s)[i] != dedup_adjacent(s)[i + 1],
    decreases s.len(),
{
    if s.len() > 0 {
        let t = s.drop_last();
        lemma_dedup_adjacent_no_repeats(t);
        let d = dedup_adjacent(t);
        let r = dedup_adjacent(s);
        assert forall|i: int| 0 <= i < r.len() - 1 implies #[trigger] r[i] != r[i + 1] by {
            if !(d.len() > 0 && d.last() == s.last()) {
                if i < d.len() - 1 {
                    assert(r[i] == d[i] && r[i + 1] == d[i + 1]);
                } else {
                    assert(r[i + 1] == s.last());
                }
            }
        }
    }
}

/// Whether every item of `s` occurs in `d`, and every item of `d` in `s`.
pub open spec fn same_items<A>(s: Seq<A>, d: Seq<A>) -> bool {
    &&& forall|i: int| 0 <= i < s.len() ==> d.contains(#[trigger] s[i])
    &&& forall|j: int| 0 <= j < d.len() ==> s.contains(#[trigger] d[j])
}

/// Deduplicating keeps exactly the items of the sequence.
pub proof fn lemma_dedup_adjacent_same_items<A>(s: Seq<A>)
    ensures
        same_items(s, dedup_adjacent(s)),
    decreases s.len(),
{
    if s.len() > 0 {
        let t = s.drop_last();
        lemma_dedup_adjacent_same_items(t);
        let d = dedup_adjacent(t);
        let r = dedup_adjacent(s);
        assert forall|i: int| 0 <= i < s.len() implies r.contains(#[trigger] s[i]) by {
            if i < s.len() - 1 {
                assert(t[i] == s[i]);
                assert(d.contains(t[i]));
                let k = choose|k: int| 0 <= k < d.len() && d[k] == t[i];
                if d.len() > 0 && d.last() == s.last() {
                    assert(r[k] == s[i]);
                } else {
                    assert(r[k] == s[i]);
                }
            } else {
                if d.len() > 0 && d.last() == s.last() {
                    assert(r[d.len() - 1] == s[i]);
                } else {
                    assert(r[d.len() as int] == s[i]);
                }
            }
        }
        assert forall|j: int| 0 <= j < r.len() implies s.contains(#[trigger] r[j]) by {
            if j < d.len() {
                assert(r[j] == d[j]);
                assert(t.contains(d[j]));
                let k = choose|k: int| 0 <= k < t.len() && t[k] == d[j];
                assert(s[k] == r[j]);
            } else {
                assert(r[j] == s[s.len() - 1]);
            }
        }
    }
}

} // verus!
