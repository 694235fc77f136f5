//! What a filter does to a list.

use vstd::prelude::*;

verus! {

/// A filter looks at the last entry after it has looked at those before it.
pub proof fn filter_by_last<A>(s: Seq<A>, pred: spec_fn(A) -> bool)
    ensures
        s.len() == 0 ==> s.filter(pred) == s,
        s.len() > 0 && pred(s.last()) ==> s.filter(pred) == s.drop_last().filter(pred).push(
            s.last(),
        ),
        s.len() > 0 && !pred(s.last()) ==> s.filter(pred) == s.drop_last().filter(pred),
{
    reveal(Seq::filter);
}

/// Whether the numbers of `idx` rise from each entry to the next.
pub open spec fn rises(idx: Seq<int>) -> bool {
    forall|i: int, j: int| 0 <= i < j < idx.len() ==> idx[i] < idx[j]
}

/// What a filter keeps, entry by entry: the result names the place in
/// `s` that each kept entry comes from. The places rise, each holds an
/// entry that passes `pred`, and no place whose entry passes is left out.
pub proof fn filter_places<A>(s: Seq<A>, pred: spec_fn(A) -> bool) -> (idx: Seq<int>)
    ensures
        idx.len() == s.filter(pred).len(),
        rises(idx),
        forall|k: int|
            0 <= k < idx.len() ==> 0 <= #[trigger] idx[k] < s.len() && s[idx[k]] == s.filter(
                pred,
            )[k] && pred(s[idx[k]]),
        forall|j: int| 0 <= j < s.len() && pred(#[trigger] s[j]) ==> idx.contains(j),
    decreases s.len(),
{
    filter_by_last(s, pred);
    if s.len() == 0 {
        Seq::empty()
    } else {
        let before = filter_places(s.drop_last(), pred);
        let idx = if pred(s.last()) {
            before.push(s.len() - 1)
        } else {
            before
        };
        assert forall|j: int| 0 <= j < s.len() && pred(#[trigger] s[j]) implies idx.contains(
            j,
        ) by {
            if j < s.len() - 1 {
                assert(s.drop_last()[j] == s[j]);
                let k = choose|k: int| 0 <= k < before.len() && before[k] == j;
                assert(idx[k] == j);
            } else {
                assert(idx[idx.len() - 1] == j);
            }
        }
        idx
    }
}

/// A filter of a list that holds nothing twice holds nothing twice.
pub proof fn filter_keeps_distinct<A>(s: Seq<A>, pred: spec_fn(A) -> bool)
    requires
        s.no_duplicates(),
    ensures
        s.filter(pred).no_duplicates(),
{
    let idx = filter_places(s, pred);
    let f = s.filter(pred);
    assert forall|i: int, j: int| 0 <= i < f.len() && 0 <= j < f.len() && i != j implies f[i]
        != f[j] by {
        assert(s[idx[i]] == f[i]);
        assert(s[idx[j]] == f[j]);
        if i < j {
            assert(idx[i] < idx[j]);
        } else {
            assert(idx[j] < idx[i]);
        }
    }
}

/// A filter keeps a list whose every entry passes.
pub proof fn filter_keeps_all<A>(s: Seq<A>, pred: spec_fn(A) -> bool)
    requires
        forall|k: int| 0 <= k < s.len() ==> pred(#[trigger] s[k]),
    ensures
        s.filter(pred) == s,
    decreases s.len(),
{
    filter_by_last(s, pred);
    if s.len() > 0 {
        assert forall|k: int| 0 <= k < s.drop_last().len() implies pred(
            #[trigger] s.drop_last()[k],
        ) by {
            assert(s.drop_last()[k] == s[k]);
        }
        filter_keeps_all(s.drop_last(), pred);
        assert(s.drop_last().push(s.last()) =~= s);
    }
}

/// Rising places start no lower than they count.
proof fn rising_from_below(idx: Seq<int>, k: int)
    requires
        rises(idx),
        0 <= k < idx.len(),
        0 <= idx[0],
    ensures
        k <= idx[k],
    decreases k,
{
    if k > 0 {
        rising_from_below(idx, k - 1);
        assert(idx[k - 1] < idx[k]);
    }
}

/// A filter that keeps as many entries as there are keeps the list.
pub proof fn filter_of_full_length<A>(s: Seq<A>, pred: spec_fn(A) -> bool)
    requires
        s.filter(pred).len() == s.len(),
    ensures
        s.filter(pred) == s,
    decreases s.len(),
{
    filter_by_last(s, pred);
    if s.len() > 0 {
        let places = filter_places(s.drop_last(), pred);
        assert(s.drop_last().filter(pred).len() <= s.drop_last().len()) by {
            if places.len() > 0 {
                rising_from_below(places, places.len() - 1);
            }
        }
        filter_of_full_length(s.drop_last(), pred);
        assert(s.drop_last().push(s.last()) =~= s);
    }
}

} // verus!
