//! Selecting the positions of a sequence whose items satisfy a predicate.

use vstd::prelude::*;

verus! {

/// The positions of `s`, in increasing order, whose items satisfy `pred`.
pub open spec fn matching_indices<T>(s: Seq<T>, pred: spec_fn(T) -> bool) -> Seq<int>
    decreases s.len(),
{
    if s.len() == 0 {
        Seq::empty()
    } else {
        let rest = matching_indices(s.drop_last(), pred);
        if pred(s.last()) {
            rest.push(s.len() - 1)
        } else {
            rest
        }
    }
}

/// The items of `s` at the positions `idx`.
pub open spec fn items_at<T>(s: Seq<T>, idx: Seq<int>) -> Seq<T> {
    Seq::new(idx.len(), |k: int| s[idx[k]])
}

/// Extending the scanned prefix by one item appends its position exactly
/// when the item satisfies the predicate.
pub proof fn lemma_matching_indices_step<T>(s: Seq<T>, pred: spec_fn(T) -> bool, n: int)
    requires
        0 <= n < s.len(),
    ensures
        matching_indices(s.take(n + 1), pred) == if pred(s[n]) {
            matching_indices(s.take(n), pred).push(n)
        } else {
            matching_indices(s.take(n), pred)
        },
{
    assert(s.take(n + 1).drop_last() =~= s.take(n));
}

/// Every selected position is in range and satisfies the predicate, the
/// positions increase strictly, and no satisfying position is left out.
pub proof fn lemma_matching_indices_exact<T>(s: Seq<T>, pred: spec_fn(T) -> bool)
    ensures
        matching_indices(s, pred).len() <= s.len(),
        forall|k: int|
            0 <= k < matching_indices(s, pred).len() ==> 0 <= #[trigger] matching_indices(
                s,
                pred,
            )[k] < s.len() && pred(s[matching_indices(s, pred)[k]]),
        forall|j: int, k: int|
            0 <= j < k < matching_indices(s, pred).len() ==> matching_indices(s, pred)[j]
                < matching_indices(s, pred)[k],
        forall|i: int|
            0 <= i < s.len() && pred(s[i]) ==> matching_indices(s, pred).contains(i),
    decreases s.len(),
{
    if s.len() > 0 {
        let front = s.drop_last();
        lemma_matching_indices_exact(front, pred);
        let rest = matching_indices(front, pred);
        let all = matching_indices(s, pred);
        assert forall|i: int| 0 <= i < s.len() && pred(s[i]) implies all.contains(i) by {
            if i < s.len() - 1 {
                assert(front[i] == s[i]);
                assert(rest.contains(i));
                let k = choose|k: int| 0 <= k < rest.len() && rest[k] == i;
                assert(all[k] == i);
            } else {
                assert(all[all.len() - 1] == i);
            }
        }
        assert forall|k: int| 0 <= k < all.len() implies 0 <= #[trigger] all[k] < s.len() && pred(
            s[all[k]],
        ) by {
            if k < rest.len() {
                assert(front[rest[k]] == s[rest[k]]);
            }
        }
    }
}

/// Reading the items at the selected positions is the same as filtering.
pub proof fn lemma_matching_indices_filter<T>(s: Seq<T>, pred: spec_fn(T) -> bool)
    ensures
        items_at(s, matching_indices(s, pred)) == s.filter(pred),
    decreases s.len(),
{
    reveal(Seq::filter);
    if s.len() == 0 {
        assert(items_at(s, matching_indices(s, pred)) =~= s.filter(pred));
    } else {
        let front = s.drop_last();
        lemma_matching_indices_filter(front, pred);
        lemma_matching_indices_exact(front, pred);
        let rest = matching_indices(front, pred);
        assert forall|k: int| 0 <= k < rest.len() implies front[rest[k]] == s[rest[k]] by {}
        assert(items_at(s, matching_indices(s, pred)) =~= s.filter(pred));
    }
}

/// The number of selected positions is the number of items that pass the
/// filter.
pub proof fn lemma_matching_indices_len<T>(s: Seq<T>, pred: spec_fn(T) -> bool)
    ensures
        matching_indices(s, pred).len() == s.filter(pred).len(),
{
    lemma_matching_indices_filter(s, pred);
}

/// Extending the filtered prefix by one item appends the item exactly when
/// it satisfies the predicate.
pub proof fn lemma_filter_step<T>(s: Seq<T>, pred: spec_fn(T) -> bool, n: int)
    requires
        0 <= n < s.len(),
    ensures
        s.take(n + 1).filter(pred) == if pred(s[n]) {
            s.take(n).filter(pred).push(s[n])
        } else {
            s.take(n).filter(pred)
        },
{
    reveal(Seq::filter);
    assert(s.take(n + 1).drop_last() =~= s.take(n));
}

/// Positions held as machine integers, read as mathematical integers.
pub open spec fn positions(v: Seq<usize>) -> Seq<int> {
    Seq::new(v.len(), |k: int| v[k] as int)
}

/// An optional position held as a machine integer, read as a mathematical
/// integer.
pub open spec fn position(i: Option<usize>) -> Option<int> {
    match i {
        Some(i) => Some(i as int),
        None => None,
    }
}

} // verus!
