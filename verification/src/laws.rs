//! Properties of the monitor's transitions, proved once for all states.

use vstd::prelude::*;
use crate::listing::{lemma_matching_indices_exact, lemma_matching_indices_len};
use crate::model::{search_hit, visible, AppView, MAX_LOGS};
use crate::nav::{NavigationMode, TabType};
use crate::text::lowercase;
use crate::types::LogEntry;

verus! {

/// The state after the entries of `entries` arrived one by one.
pub open spec fn after_entries(s: AppView, entries: Seq<LogEntry>) -> AppView
    decreases entries.len(),
{
    if entries.len() == 0 {
        s
    } else {
        after_entries(s, entries.drop_last()).log_appended(entries.last())
    }
}

/// A bounded log stays bounded however many entries arrive, and what it
/// keeps are the most recent of the entries it had and those that arrived.
pub proof fn lemma_log_keeps_most_recent(s: AppView, entries: Seq<LogEntry>)
    requires
        s.logs.len() <= MAX_LOGS,
    ensures
        after_entries(s, entries).logs.len() <= MAX_LOGS,
        after_entries(s, entries).logs.len() == if s.logs.len() + entries.len() <= MAX_LOGS {
            s.logs.len() + entries.len()
        } else {
            MAX_LOGS as nat
        },
        after_entries(s, entries).logs == (s.logs + entries).skip(
            (s.logs + entries).len() - after_entries(s, entries).logs.len(),
        ),
    decreases entries.len(),
{
    if entries.len() == 0 {
        assert(s.logs + entries =~= s.logs);
        assert(s.logs.skip(0) =~= s.logs);
    } else {
        let front = entries.drop_last();
        lemma_log_keeps_most_recent(s, front);
        let before = after_entries(s, front);
        let after = before.log_appended(entries.last());
        let all_before = s.logs + front;
        let all = s.logs + entries;
        assert(all =~= all_before.push(entries.last()));
        let excess = before.eviction_count();
        assert(after.logs =~= before.logs.push(entries.last()).skip(excess as int));
        assert(after.logs =~= all.skip(all.len() - after.logs.len()));
    }
}

/// One arriving entry never leaves the log longer than the cap.
pub proof fn lemma_log_bounded(s: AppView, entry: LogEntry)
    ensures
        s.log_appended(entry).logs.len() <= MAX_LOGS,
        s.log_appended(entry).logs.len() > 0,
        s.log_appended(entry).logs.last() == entry,
{
}

/// The filtered view holds exactly the entries of the log that pass the
/// proxy filter and belong to the active tab, in the order of the log: its
/// entries are those at the filtered positions, which increase strictly,
/// satisfy the filter, and leave out no position that satisfies it.
pub proof fn lemma_filtered_view_exact(s: AppView)
    ensures
        s.filtered().len() == s.filtered_indices().len(),
        forall|k: int|
            0 <= k < s.filtered().len() ==> 0 <= #[trigger] s.filtered_indices()[k] < s.logs.len()
                && s.filtered()[k] == s.logs[s.filtered_indices()[k]] && visible(
                s.filtered()[k],
                s.selected_proxy,
                s.active_tab,
            ),
        forall|j: int, k: int|
            0 <= j < k < s.filtered_indices().len() ==> s.filtered_indices()[j]
                < s.filtered_indices()[k],
        forall|i: int|
            0 <= i < s.logs.len() && visible(s.logs[i], s.selected_proxy, s.active_tab)
                ==> s.filtered_indices().contains(i),
{
    let pred = s.filter_pred();
    lemma_matching_indices_exact(s.logs, pred);
    crate::listing::lemma_matching_indices_filter(s.logs, pred);
    let idx = s.filtered_indices();
    assert forall|k: int| 0 <= k < s.filtered().len() implies 0 <= #[trigger] idx[k] < s.logs.len()
        && s.filtered()[k] == s.logs[idx[k]] && visible(
        s.filtered()[k],
        s.selected_proxy,
        s.active_tab,
    ) by {
        assert(crate::listing::items_at(s.logs, idx)[k] == s.logs[idx[k]]);
        assert(pred(s.logs[idx[k]]));
    }
    assert forall|i: int|
        0 <= i < s.logs.len() && visible(
            s.logs[i],
            s.selected_proxy,
            s.active_tab,
        ) implies idx.contains(i) by {
        assert(pred(s.logs[i]));
    }
}

/// After a search, a position is among the results exactly when it is in
/// the log, its entry passes the tab and proxy filter, and the lower-cased
/// query occurs in the entry's lower-cased message, proxy name or level
/// name; the results are in increasing order. An empty query has no results.
pub proof fn lemma_search_results_exact(s: AppView)
    ensures
        s.search_query.len() == 0 ==> s.with_fresh_results().search_results.len() == 0,
        s.search_query.len() > 0 ==> forall|i: int|
            s.with_fresh_results().search_results.contains(i) <==> (0 <= i < s.logs.len()
                && visible(s.logs[i], s.selected_proxy, s.active_tab) && search_hit(
                s.logs[i],
                lowercase(s.search_query),
                s.proxies,
            )),
        forall|j: int, k: int|
            0 <= j < k < s.with_fresh_results().search_results.len()
                ==> s.with_fresh_results().search_results[j]
                < s.with_fresh_results().search_results[k],
{
    if s.search_query.len() > 0 {
        let pred = crate::model::search_pred(
            s.selected_proxy,
            s.active_tab,
            lowercase(s.search_query),
            s.proxies,
        );
        lemma_matching_indices_exact(s.logs, pred);
        let results = s.with_fresh_results().search_results;
        assert forall|i: int| results.contains(i) implies (0 <= i < s.logs.len() && visible(
            s.logs[i],
            s.selected_proxy,
            s.active_tab,
        ) && search_hit(s.logs[i], lowercase(s.search_query), s.proxies)) by {
            let k = choose|k: int| 0 <= k < results.len() && results[k] == i;
            assert(pred(s.logs[results[k]]));
        }
        assert forall|i: int|
            (0 <= i < s.logs.len() && visible(s.logs[i], s.selected_proxy, s.active_tab)
                && search_hit(
                s.logs[i],
                lowercase(s.search_query),
                s.proxies,
            )) implies results.contains(i) by {
            assert(pred(s.logs[i]));
        }
    }
}

/// In Follow mode, an arriving entry leaves the selection on the last of
/// the filtered entries, whenever there is one.
pub proof fn lemma_follow_selects_last(s: AppView, entry: LogEntry)
    requires
        s.navigation_mode == NavigationMode::Follow,
    ensures
        s.log_appended(entry).navigation_mode == NavigationMode::Follow,
        s.log_appended(entry).filtered().len() > 0 ==> s.log_appended(entry).selected_index
            == s.log_appended(entry).filtered().len() - 1,
{
    let t = s.log_appended(entry);
    lemma_matching_indices_len(t.logs, t.filter_pred());
}

/// The selection clamped to a list of `len` entries.
pub open spec fn clamped(index: nat, len: nat) -> nat {
    if len == 0 {
        0
    } else if index >= len {
        (len - 1) as nat
    } else {
        index
    }
}

/// Leaving a tab and coming back restores its selection, clamped to the
/// filtered entries, its viewport and its mode; the log, the proxies and the
/// filter are untouched.
pub proof fn lemma_tab_round_trip(s: AppView, other: TabType)
    ensures
        ({
            let back = s.switch_tab(other).switch_tab(s.active_tab);
            let len = s.filtered_indices().len();
            &&& back.active_tab == s.active_tab
            &&& back.selected_index == clamped(s.selected_index, len)
            &&& back.viewport_offset == if len == 0 {
                0
            } else {
                s.viewport_offset
            }
            &&& back.navigation_mode == s.navigation_mode
            &&& back.logs == s.logs
            &&& back.proxies == s.proxies
            &&& back.selected_proxy == s.selected_proxy
        }),
{
}

/// Switching to a tab, away from it and back restores the selection, the
/// viewport and the mode that the first switch left.
pub proof fn lemma_tab_state_isolation(s: AppView, a: TabType, b: TabType)
    ensures
        ({
            let first = s.switch_tab(a);
            let back = first.switch_tab(b).switch_tab(a);
            &&& back.active_tab == a
            &&& back.selected_index == first.selected_index
            &&& back.viewport_offset == first.viewport_offset
            &&& back.navigation_mode == first.navigation_mode
        }),
{
    let first = s.switch_tab(a);
    lemma_tab_round_trip(first, b);
}

} // verus!
