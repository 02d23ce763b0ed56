//! Totals of the counters of all known proxies.

use vstd::prelude::*;
use crate::types::{ProxyInfo, ProxyStats};

verus! {

/// One of the counters that are totalled.
#[derive(Debug, Clone, Copy, PartialEq, Eq, Structural)]
pub enum Counter {
    TotalRequests,
    SuccessfulRequests,
    FailedRequests,
    ActiveConnections,
    BytesTransferred,
}

impl Counter {
    /// The value of this counter in `stats`.
    pub open spec fn of(self, stats: ProxyStats) -> nat {
        match self {
            Counter::TotalRequests => stats.total_requests as nat,
            Counter::SuccessfulRequests => stats.successful_requests as nat,
            Counter::FailedRequests => stats.failed_requests as nat,
            Counter::ActiveConnections => stats.active_connections as nat,
            Counter::BytesTransferred => stats.bytes_transferred as nat,
        }
    }
}

/// Adds the counter of the proxy under a key to a running total.
pub open spec fn add_counter(proxies: Map<u128, ProxyInfo>, counter: Counter) -> spec_fn(
    nat,
    u128,
) -> nat {
    |total: nat, key: u128| total + counter.of(proxies[key].stats)
}

/// The sum of `counter` over all proxies.
pub open spec fn counter_total(proxies: Map<u128, ProxyInfo>, counter: Counter) -> nat {
    proxies.dom().fold(0nat, add_counter(proxies, counter))
}

/// Whether every total fits the width of its counter.
pub open spec fn totals_fit(proxies: Map<u128, ProxyInfo>) -> bool {
    &&& counter_total(proxies, Counter::TotalRequests) <= u64::MAX
    &&& counter_total(proxies, Counter::SuccessfulRequests) <= u64::MAX
    &&& counter_total(proxies, Counter::FailedRequests) <= u64::MAX
    &&& counter_total(proxies, Counter::ActiveConnections) <= u32::MAX
    &&& counter_total(proxies, Counter::BytesTransferred) <= u64::MAX
}

/// The sum of `counter` over the proxies under `keys`, in order.
pub open spec fn listed_total(keys: Seq<u128>, proxies: Map<u128, ProxyInfo>, counter: Counter) -> nat
    decreases keys.len(),
{
    if keys.len() == 0 {
        0
    } else {
        listed_total(keys.drop_last(), proxies, counter) + counter.of(
            proxies[keys.last()].stats,
        )
    }
}

/// A longer prefix of a listing has the total of the shorter one plus the
/// counter of the proxy added.
pub proof fn lemma_listed_total_step(
    keys: Seq<u128>,
    proxies: Map<u128, ProxyInfo>,
    counter: Counter,
    n: int,
)
    requires
        0 <= n < keys.len(),
    ensures
        listed_total(keys.take(n + 1), proxies, counter) == listed_total(
            keys.take(n),
            proxies,
            counter,
        ) + counter.of(proxies[keys[n]].stats),
{
    assert(keys.take(n + 1).drop_last() =~= keys.take(n));
}

/// The total over a prefix of a listing is at most the total over all of it.
pub proof fn lemma_listed_total_prefix(
    keys: Seq<u128>,
    proxies: Map<u128, ProxyInfo>,
    counter: Counter,
    n: int,
)
    requires
        0 <= n <= keys.len(),
    ensures
        listed_total(keys.take(n), proxies, counter) <= listed_total(keys, proxies, counter),
    decreases keys.len() - n,
{
    if n < keys.len() {
        lemma_listed_total_step(keys, proxies, counter, n);
        lemma_listed_total_prefix(keys, proxies, counter, n + 1);
    } else {
        assert(keys.take(n) =~= keys);
    }
}

/// Listing every proxy once, in whatever order, gives the total.
pub proof fn lemma_listed_total_is_total(
    keys: Seq<u128>,
    proxies: Map<u128, ProxyInfo>,
    counter: Counter,
)
    requires
        keys.no_duplicates(),
        keys.to_set() == proxies.dom(),
    ensures
        listed_total(keys, proxies, counter) == counter_total(proxies, counter),
{
    lemma_listed_total_folds(keys, proxies, counter);
}

/// The total over keys listed without repetition is the fold over their set.
proof fn lemma_listed_total_folds(keys: Seq<u128>, proxies: Map<u128, ProxyInfo>, counter: Counter)
    requires
        keys.no_duplicates(),
    ensures
        listed_total(keys, proxies, counter) == keys.to_set().fold(
            0nat,
            add_counter(proxies, counter),
        ),
    decreases keys.len(),
{
    let f = add_counter(proxies, counter);
    assert(vstd::set::fold::is_fun_commutative(f));
    if keys.len() == 0 {
        assert(keys.to_set() =~= Set::<u128>::empty());
        vstd::set::fold::lemma_fold_empty(0nat, f);
    } else {
        let front = keys.drop_last();
        lemma_listed_total_folds(front, proxies, counter);
        vstd::seq_lib::seq_to_set_is_finite(front);
        assert(!front.to_set().contains(keys.last())) by {
            if front.to_set().contains(keys.last()) {
                let i = choose|i: int| 0 <= i < front.len() && front[i] == keys.last();
                assert(keys[i] == keys[keys.len() - 1]);
            }
        }
        assert(keys.to_set() =~= front.to_set().insert(keys.last())) by {
            assert forall|k: u128| keys.to_set().contains(k) implies front.to_set().insert(
                keys.last(),
            ).contains(k) by {
                let i = choose|i: int| 0 <= i < keys.len() && keys[i] == k;
                if i < front.len() {
                    assert(front[i] == k);
                }
            }
            assert forall|k: u128| front.to_set().insert(keys.last()).contains(
                k,
            ) implies keys.to_set().contains(k) by {
                if k == keys.last() {
                    assert(keys[keys.len() - 1] == k);
                } else {
                    let i = choose|i: int| 0 <= i < front.len() && front[i] == k;
                    assert(keys[i] == k);
                }
            }
        }
        vstd::set::fold::lemma_fold_insert(front.to_set(), 0nat, f, keys.last());
    }
}

} // verus!
