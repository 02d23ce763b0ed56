//! The proxies the monitor knows: their listing by name, the proxy filter,
//! and the totals of their counters.

use vstd::prelude::*;
use std::collections::HashMap;
use vstd::std_specs::hash::spec_hash_map_iter;
use vstd::std_specs::iter::IteratorSpec;
use vstd::set_lib::lemma_subset_equality;
use crate::app::App;
use crate::model::{is_key_listing, is_proxy_listing};
use crate::platform::{is_random_uuid, whole_seconds};
use crate::text::{lemma_text_lt_le, text_le, text_not_after};
use crate::totals::{
    counter_total,
    lemma_listed_total_is_total,
    lemma_listed_total_prefix,
    lemma_listed_total_step,
    listed_total,
    totals_fit,
    Counter,
};
use crate::types::{ProxyId, ProxyInfo, ProxyStats};

verus! {

broadcast use vstd::std_specs::hash::group_hash_axioms;

/// The proxies of `map` with their keys, each once, in the order in which
/// the map yields them.
pub(crate) fn map_entries(map: &HashMap<u128, ProxyInfo>) -> (r: Vec<(u128, &ProxyInfo)>)
    ensures
        r.len() == map@.len(),
        forall|i: int| 0 <= i < r.len() ==> map@.contains_key(#[trigger] r[i].0) && *r[i].1 == map@[r[i].0],
        forall|i: int, j: int| 0 <= i < j < r.len() ==> r[i].0 != r[j].0,
        forall|k: u128| map@.contains_key(k) ==> exists|i: int| 0 <= i < r.len() && r[i].0 == k,
{
    let mut out: Vec<(u128, &ProxyInfo)> = Vec::new();
    let ghost all = spec_hash_map_iter(map).remaining();
    for pair in it: map.iter()
        invariant
            it.seq() == all,
            all == spec_hash_map_iter(map).remaining(),
            all.no_duplicates(),
            out.len() == it.index(),
            forall|i: int| 0 <= i < out.len() ==> (#[trigger] out[i]).0 == *all[i].0 && out[i].1 == all[i].1,
    {
        let (key, info) = pair;
        out.push((*key, info));
    }
    proof {
        assert forall|i: int, j: int| 0 <= i < j < out.len() implies out[i].0 != out[j].0 by {
            if out[i].0 == out[j].0 {
                assert(map@[*all[i].0] == *all[i].1);
                assert(map@[*all[j].0] == *all[j].1);
                assert(all[i] == all[j]);
            }
        }
        assert forall|k: u128| map@.contains_key(k) implies exists|i: int|
            0 <= i < out.len() && out[i].0 == k by {
            assert(all.contains((&k, &map@[k])));
            let i = choose|i: int| 0 <= i < all.len() && all[i] == (&k, &map@[k]);
            assert(out[i].0 == k);
        }
    }
    out
}

/// The keys of a listing of entries.
pub open spec fn entry_keys(entries: Seq<(u128, &ProxyInfo)>) -> Seq<u128> {
    Seq::new(entries.len(), |i: int| entries[i].0)
}

/// The proxies of a listing of entries.
pub open spec fn entry_infos(entries: Seq<(u128, &ProxyInfo)>) -> Seq<ProxyInfo> {
    Seq::new(entries.len(), |i: int| *entries[i].1)
}

/// Keys without repetition, all of them keys of `map` and as many as `map`
/// has, are the keys of `map`.
proof fn lemma_keys_cover(keys: Seq<u128>, map: Map<u128, ProxyInfo>)
    requires
        map.dom().finite(),
        keys.no_duplicates(),
        keys.len() == map.len(),
        forall|i: int| 0 <= i < keys.len() ==> map.contains_key(#[trigger] keys[i]),
    ensures
        keys.to_set() == map.dom(),
{
    keys.unique_seq_to_set();
    vstd::seq_lib::seq_to_set_is_finite(keys);
    assert(keys.to_set().subset_of(map.dom()));
    lemma_subset_equality(keys.to_set(), map.dom());
}

/// For every counter, what one more listed proxy adds to the running total,
/// and that the running total stays within the whole.
proof fn lemma_counters_step(keys: Seq<u128>, map: Map<u128, ProxyInfo>, n: int)
    requires
        0 <= n < keys.len(),
    ensures
        forall|c: Counter|
            #![trigger listed_total(keys.take(n + 1), map, c)]
            listed_total(keys.take(n + 1), map, c) == listed_total(keys.take(n), map, c) + c.of(
                map[keys[n]].stats,
            ) && listed_total(keys.take(n + 1), map, c) <= listed_total(keys, map, c),
{
    assert forall|c: Counter|
        #![trigger listed_total(keys.take(n + 1), map, c)]
        listed_total(keys.take(n + 1), map, c) == listed_total(keys.take(n), map, c) + c.of(
            map[keys[n]].stats,
        ) && listed_total(keys.take(n + 1), map, c) <= listed_total(keys, map, c) by {
        lemma_listed_total_step(keys, map, c, n);
        lemma_listed_total_prefix(keys, map, c, n + 1);
    }
}

/// The proxies of `map` with their keys, each once, ordered by name.
pub(crate) fn sorted_entries(map: &HashMap<u128, ProxyInfo>) -> (r: Vec<(u128, &ProxyInfo)>)
    ensures
        is_key_listing(entry_keys(r@), entry_infos(r@), map@),
        is_proxy_listing(entry_infos(r@), map@),
        r.len() == map@.len(),
{
    let entries = map_entries(map);
    let mut sorted: Vec<(u128, &ProxyInfo)> = Vec::new();
    let mut n: usize = 0;
    while n < entries.len()
        invariant
            n <= entries.len(),
            sorted.len() == n,
            forall|i: int|
                0 <= i < entries.len() ==> map@.contains_key(#[trigger] entries[i].0)
                    && *entries[i].1 == map@[entries[i].0],
            forall|i: int, j: int| 0 <= i < j < entries.len() ==> entries[i].0 != entries[j].0,
            forall|i: int|
                0 <= i < sorted.len() ==> map@.contains_key(#[trigger] sorted[i].0)
                    && *sorted[i].1 == map@[sorted[i].0],
            forall|i: int|
                0 <= i < sorted.len() ==> exists|j: int|
                    0 <= j < n && entries[j].0 == (#[trigger] sorted[i]).0,
            forall|i: int, j: int| 0 <= i < j < sorted.len() ==> sorted[i].0 != sorted[j].0,
            forall|i: int, j: int|
                0 <= i < j < sorted.len() ==> text_le(
                    #[trigger] sorted[i].1.name@,
                    #[trigger] sorted[j].1.name@,
                ),
        decreases entries.len() - n,
    {
        let entry = entries[n];
        let mut at: usize = 0;
        while at < sorted.len() && text_not_after(sorted[at].1.name.as_str(), entry.1.name.as_str())
            invariant
                at <= sorted.len(),
                forall|i: int|
                    0 <= i < at ==> text_le(#[trigger] sorted[i].1.name@, entry.1.name@),
            decreases sorted.len() - at,
        {
            at = at + 1;
        }
        let ghost before = sorted@;
        proof {
            assert forall|j: int| at <= j < before.len() implies text_le(
                entry.1.name@,
                #[trigger] before[j].1.name@,
            ) by {
                crate::text::lemma_text_lt_irreflexive(before[at as int].1.name@);
                lemma_text_lt_le(entry.1.name@, before[at as int].1.name@, before[j].1.name@);
            }
            assert forall|i: int| 0 <= i < before.len() implies (#[trigger] before[i]).0
                != entry.0 by {
                let j = choose|j: int| 0 <= j < n && entries[j].0 == before[i].0;
                assert(entries[j].0 != entries[n as int].0);
            }
        }
        sorted.insert(at, entry);
        proof {
            assert forall|i: int| 0 <= i < sorted.len() implies exists|j: int|
                0 <= j < n + 1 && entries[j].0 == (#[trigger] sorted[i]).0 by {
                if i < at {
                    assert(sorted[i] == before[i]);
                    let j = choose|j: int| 0 <= j < n && entries[j].0 == before[i].0;
                    assert(entries[j].0 == sorted[i].0);
                } else if i == at {
                    assert(entries[n as int].0 == sorted[i].0);
                } else {
                    assert(sorted[i] == before[i - 1]);
                    let j = choose|j: int| 0 <= j < n && entries[j].0 == before[i - 1].0;
                    assert(entries[j].0 == sorted[i].0);
                }
            }
            assert forall|i: int, j: int| 0 <= i < j < sorted.len() implies text_le(
                #[trigger] sorted[i].1.name@,
                #[trigger] sorted[j].1.name@,
            ) && sorted[i].0 != sorted[j].0 by {
                let bi = if i < at { i } else { i - 1 };
                let bj = if j < at { j } else { j - 1 };
                if i != at {
                    assert(sorted[i] == before[bi]);
                }
                if j != at {
                    assert(sorted[j] == before[bj]);
                }
            }
            assert forall|i: int| 0 <= i < sorted.len() implies map@.contains_key(
                #[trigger] sorted[i].0,
            ) && *sorted[i].1 == map@[sorted[i].0] by {
                if i < at {
                    assert(sorted[i] == before[i]);
                } else if i > at {
                    assert(sorted[i] == before[i - 1]);
                }
            }
        }
        n = n + 1;
    }
    proof {
        let keys = entry_keys(sorted@);
        let infos = entry_infos(sorted@);
        lemma_keys_cover(keys, map@);
        assert(is_key_listing(keys, infos, map@));
        assert forall|i: int, j: int| 0 <= i < j < infos.len() implies text_le(
            #[trigger] infos[i].name@,
            #[trigger] infos[j].name@,
        ) by {
            assert(text_le(sorted[i].1.name@, sorted[j].1.name@));
        }
    }
    sorted
}

impl App {
    /// Every known proxy once, ordered by name.
    pub fn get_proxy_list(&self) -> (r: Vec<&ProxyInfo>)
        ensures
            is_proxy_listing(r@.unref(), self@.proxies),
            r.len() == self@.proxies.len(),
    {
        let sorted = sorted_entries(&self.proxies);
        let mut out: Vec<&ProxyInfo> = Vec::new();
        let mut i: usize = 0;
        while i < sorted.len()
            invariant
                i <= sorted.len(),
                out.len() == i,
                forall|k: int| 0 <= k < i ==> out[k] == sorted[k].1,
            decreases sorted.len() - i,
        {
            out.push(sorted[i].1);
            i = i + 1;
        }
        assert(out@.unref() =~= entry_infos(sorted@));
        out
    }

    /// The counters of all known proxies added up, under a fresh identifier
    /// and with no uptime; `None` if a total exceeds the width of its
    /// counter.
    pub fn checked_total_stats(&self) -> (r: Option<ProxyStats>)
        ensures
            r is Some == totals_fit(self@.proxies),
            r matches Some(total) ==> {
                &&& total.total_requests == counter_total(self@.proxies, Counter::TotalRequests)
                &&& total.successful_requests == counter_total(
                    self@.proxies,
                    Counter::SuccessfulRequests,
                )
                &&& total.failed_requests == counter_total(self@.proxies, Counter::FailedRequests)
                &&& total.active_connections == counter_total(
                    self@.proxies,
                    Counter::ActiveConnections,
                )
                &&& total.bytes_transferred == counter_total(
                    self@.proxies,
                    Counter::BytesTransferred,
                )
                &&& total.uptime == whole_seconds(0)
                &&& is_random_uuid(total.proxy_id.0)
            },
    {
        let entries = map_entries(&self.proxies);
        let ghost map = self.proxies@;
        let ghost keys = entry_keys(entries@);
        proof {
            lemma_keys_cover(keys, map);
            lemma_listed_total_is_total(keys, map, Counter::TotalRequests);
            lemma_listed_total_is_total(keys, map, Counter::SuccessfulRequests);
            lemma_listed_total_is_total(keys, map, Counter::FailedRequests);
            lemma_listed_total_is_total(keys, map, Counter::ActiveConnections);
            lemma_listed_total_is_total(keys, map, Counter::BytesTransferred);
            assert(keys.take(0) =~= Seq::<u128>::empty());
        }
        let mut total = ProxyStats::default();
        let mut i: usize = 0;
        while i < entries.len()
            invariant
                i <= entries.len(),
                map == self.proxies@,
                keys == entry_keys(entries@),
                forall|c: Counter| listed_total(keys, map, c) == counter_total(map, c),
                forall|k: int|
                    0 <= k < entries.len() ==> map.contains_key(#[trigger] entries[k].0)
                        && *entries[k].1 == map[entries[k].0],
                total.total_requests == listed_total(
                    keys.take(i as int),
                    map,
                    Counter::TotalRequests,
                ),
                total.successful_requests == listed_total(
                    keys.take(i as int),
                    map,
                    Counter::SuccessfulRequests,
                ),
                total.failed_requests == listed_total(
                    keys.take(i as int),
                    map,
                    Counter::FailedRequests,
                ),
                total.active_connections == listed_total(
                    keys.take(i as int),
                    map,
                    Counter::ActiveConnections,
                ),
                total.bytes_transferred == listed_total(
                    keys.take(i as int),
                    map,
                    Counter::BytesTransferred,
                ),
                total.uptime == whole_seconds(0),
                is_random_uuid(total.proxy_id.0),
            decreases entries.len() - i,
        {
            let stats = &entries[i].1.stats;
            proof {
                lemma_counters_step(keys, map, i as int);
                let next = keys.take(i + 1);
                assert(*stats == map[keys[i as int]].stats);
                assert(listed_total(next, map, Counter::TotalRequests) <= counter_total(
                    map,
                    Counter::TotalRequests,
                ));
                assert(listed_total(next, map, Counter::SuccessfulRequests) <= counter_total(
                    map,
                    Counter::SuccessfulRequests,
                ));
                assert(listed_total(next, map, Counter::FailedRequests) <= counter_total(
                    map,
                    Counter::FailedRequests,
                ));
                assert(listed_total(next, map, Counter::ActiveConnections) <= counter_total(
                    map,
                    Counter::ActiveConnections,
                ));
                assert(listed_total(next, map, Counter::BytesTransferred) <= counter_total(
                    map,
                    Counter::BytesTransferred,
                ));
            }
            if stats.total_requests > u64::MAX - total.total_requests
                || stats.successful_requests > u64::MAX - total.successful_requests
                || stats.failed_requests > u64::MAX - total.failed_requests
                || stats.active_connections > u32::MAX - total.active_connections
                || stats.bytes_transferred > u64::MAX - total.bytes_transferred {
                return None;
            }
            total.total_requests = total.total_requests + stats.total_requests;
            total.successful_requests = total.successful_requests + stats.successful_requests;
            total.failed_requests = total.failed_requests + stats.failed_requests;
            total.active_connections = total.active_connections + stats.active_connections;
            total.bytes_transferred = total.bytes_transferred + stats.bytes_transferred;
            i = i + 1;
        }
        assert(keys.take(i as int) =~= keys);
        Some(total)
    }

    /// The counters of all known proxies added up, under a fresh identifier
    /// and with no uptime.
    pub fn total_stats(&self) -> (total: ProxyStats)
        requires
            totals_fit(self@.proxies),
        ensures
            total.total_requests == counter_total(self@.proxies, Counter::TotalRequests),
            total.successful_requests == counter_total(
                self@.proxies,
                Counter::SuccessfulRequests,
            ),
            total.failed_requests == counter_total(self@.proxies, Counter::FailedRequests),
            total.active_connections == counter_total(self@.proxies, Counter::ActiveConnections),
            total.bytes_transferred == counter_total(self@.proxies, Counter::BytesTransferred),
            total.uptime == whole_seconds(0),
            is_random_uuid(total.proxy_id.0),
    {
        self.checked_total_stats().unwrap()
    }

    /// Makes the proxy under the cursor the proxy filter, if the cursor is
    /// on a row of the listing.
    pub fn select_current_proxy(&mut self)
        ensures
            old(self)@.select_current_proxy(final(self)@),
    {
        let chosen: Option<ProxyId> = {
            let list = sorted_entries(&self.proxies);
            if self.proxy_selected_index < list.len() {
                Some(list[self.proxy_selected_index].1.id)
            } else {
                None
            }
        };
        match chosen {
            Some(id) => {
                self.set_proxy_filter(Some(id));
            },
            None => {},
        }
    }
}

} // verus!
