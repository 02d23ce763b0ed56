//! The monitor's state and the operations on it. Every operation is proved
//! to compute the transition of the same name on the state's view.

use vstd::prelude::*;
use std::collections::HashMap;
use crate::listing::{
    items_at,
    lemma_filter_step,
    lemma_matching_indices_filter,
    lemma_matching_indices_step,
    matching_indices,
    position,
    positions,
};
use crate::model::{in_range_pred, visible, visible_pred, AppView};
use crate::nav::{FocusArea, NavigationMode, TabStates, TabType};
use crate::types::{LogEntry, ProxyId, ProxyInfo};

verus! {

broadcast use vstd::std_specs::hash::group_hash_axioms;

/// The monitor's state: the known proxies by identifier, the bounded log,
/// and everything the interface remembers between frames.
pub struct App {
    pub proxies: HashMap<u128, ProxyInfo>,
    pub logs: Vec<LogEntry>,
    pub selected_index: usize,
    pub viewport_offset: usize,
    pub selected_proxy: Option<ProxyId>,
    pub proxy_selected_index: usize,
    pub focus_area: FocusArea,
    pub active_tab: TabType,
    pub tab_states: TabStates,
    pub selected_log_index: Option<usize>,
    pub show_detail_view: bool,
    pub detail_word_wrap: bool,
    pub detail_scroll_offset: u16,
    pub navigation_mode: NavigationMode,
    pub search_query: String,
    pub search_results: Vec<usize>,
    pub search_cursor: usize,
    pub show_help_dialog: bool,
}

impl View for App {
    type V = AppView;

    open spec fn view(&self) -> AppView {
        AppView {
            proxies: self.proxies@,
            logs: self.logs@,
            selected_index: self.selected_index as nat,
            viewport_offset: self.viewport_offset as nat,
            selected_proxy: self.selected_proxy,
            proxy_selected_index: self.proxy_selected_index as nat,
            focus_area: self.focus_area,
            active_tab: self.active_tab,
            tab_states: self.tab_states@,
            selected_log_index: position(self.selected_log_index),
            show_detail_view: self.show_detail_view,
            detail_word_wrap: self.detail_word_wrap,
            detail_scroll_offset: self.detail_scroll_offset,
            navigation_mode: self.navigation_mode,
            search_query: self.search_query@,
            search_results: positions(self.search_results@),
            search_cursor: self.search_cursor as nat,
            show_help_dialog: self.show_help_dialog,
        }
    }
}

/// Whether `entry` passes the proxy filter and belongs to `tab`.
pub fn is_visible(entry: &LogEntry, proxy: &Option<ProxyId>, tab: TabType) -> (r: bool)
    ensures
        r == visible(*entry, *proxy, tab),
{
    match proxy {
        Some(p) => {
            if entry.proxy_id != *p {
                return false;
            }
        },
        None => {},
    }
    tab.shows(entry.level)
}

impl App {
    /// The state at startup.
    pub fn new() -> (app: Self)
        ensures
            app@ == AppView::initial(),
            app@.wf(),
    {
        let app = App {
            proxies: HashMap::new(),
            logs: Vec::new(),
            selected_index: 0,
            viewport_offset: 0,
            selected_proxy: None,
            proxy_selected_index: 0,
            focus_area: FocusArea::LogView,
            active_tab: TabType::Messages,
            tab_states: TabStates::initial(),
            selected_log_index: None,
            show_detail_view: false,
            detail_word_wrap: true,
            detail_scroll_offset: 0,
            navigation_mode: NavigationMode::Follow,
            search_query: String::new(),
            search_results: Vec::new(),
            search_cursor: 0,
            show_help_dialog: false,
        };
        assert(app@ =~= AppView::initial());
        app
    }

    /// Positions in the log of the entries that pass `tab` and the proxy
    /// filter.
    pub(crate) fn positions_in_tab(&self, tab: TabType) -> (r: Vec<usize>)
        ensures
            positions(r@) == matching_indices(self.logs@, visible_pred(self.selected_proxy, tab)),
            forall|k: int| 0 <= k < r.len() ==> r[k] < self.logs.len(),
    {
        let ghost pred = visible_pred(self.selected_proxy, tab);
        let mut out: Vec<usize> = Vec::new();
        let mut i: usize = 0;
        assert(self.logs@.take(0) =~= Seq::<LogEntry>::empty());
        assert(positions(out@) =~= matching_indices(self.logs@.take(0), pred));
        while i < self.logs.len()
            invariant
                i <= self.logs.len(),
                pred == visible_pred(self.selected_proxy, tab),
                positions(out@) == matching_indices(self.logs@.take(i as int), pred),
                forall|k: int| 0 <= k < out.len() ==> out[k] < i,
            decreases self.logs.len() - i,
        {
            proof {
                lemma_matching_indices_step(self.logs@, pred, i as int);
            }
            let ghost before = out@;
            if is_visible(&self.logs[i], &self.selected_proxy, tab) {
                out.push(i);
                assert(positions(out@) =~= positions(before).push(i as int));
            }
            i = i + 1;
        }
        assert(self.logs@.take(i as int) =~= self.logs@);
        out
    }

    /// Positions in the log of the entries in the list.
    pub(crate) fn shown_positions(&self) -> (r: Vec<usize>)
        ensures
            positions(r@) == self@.shown_indices(),
            forall|k: int| 0 <= k < r.len() ==> r[k] < self.logs.len(),
    {
        if self.navigation_mode.is_search() && !self.search_query.as_str().is_empty() {
            let ghost pred = in_range_pred(self.logs@.len());
            let ghost all = positions(self.search_results@);
            let mut out: Vec<usize> = Vec::new();
            let mut k: usize = 0;
            assert(all.take(0) =~= Seq::<int>::empty());
            assert(positions(out@) =~= all.take(0).filter(pred)) by {
                reveal(Seq::filter);
            }
            while k < self.search_results.len()
                invariant
                    k <= self.search_results.len(),
                    all == positions(self.search_results@),
                    pred == in_range_pred(self.logs@.len()),
                    positions(out@) == all.take(k as int).filter(pred),
                    forall|j: int| 0 <= j < out.len() ==> out[j] < self.logs.len(),
                decreases self.search_results.len() - k,
            {
                proof {
                    lemma_filter_step(all, pred, k as int);
                }
                let ghost before = out@;
                let index = self.search_results[k];
                if index < self.logs.len() {
                    out.push(index);
                    assert(positions(out@) =~= positions(before).push(index as int));
                }
                k = k + 1;
            }
            assert(all.take(k as int) =~= all);
            out
        } else {
            self.positions_in_tab(self.active_tab)
        }
    }

    /// The entries of the log at `at`.
    pub(crate) fn entries_at(&self, at: &Vec<usize>) -> (r: Vec<&LogEntry>)
        requires
            forall|k: int| 0 <= k < at.len() ==> at[k] < self.logs.len(),
        ensures
            r@.unref() == items_at(self.logs@, positions(at@)),
            r.len() == at.len(),
    {
        let mut out: Vec<&LogEntry> = Vec::new();
        let mut k: usize = 0;
        while k < at.len()
            invariant
                k <= at.len(),
                forall|j: int| 0 <= j < at.len() ==> at[j] < self.logs.len(),
                out.len() == k,
                forall|j: int| 0 <= j < k ==> *out[j] == self.logs[at[j] as int],
            decreases at.len() - k,
        {
            out.push(&self.logs[at[k]]);
            k = k + 1;
        }
        assert(out@.unref() =~= items_at(self.logs@, positions(at@)));
        out
    }

    /// The entries that pass the filter of the active tab and of the selected
    /// proxy, in log order.
    pub fn get_filtered_logs(&self) -> (r: Vec<&LogEntry>)
        ensures
            r@.unref() == self@.filtered(),
            r.len() == self@.filtered_indices().len(),
    {
        let at = self.positions_in_tab(self.active_tab);
        proof {
            lemma_matching_indices_filter(self.logs@, self@.filter_pred());
        }
        self.entries_at(&at)
    }

    /// The entries in the list: the live search results while searching,
    /// the filtered entries otherwise.
    pub fn get_search_filtered_logs(&self) -> (r: Vec<&LogEntry>)
        ensures
            r@.unref() == self@.shown(),
            r.len() == self@.shown_len(),
    {
        let at = self.shown_positions();
        self.entries_at(&at)
    }

    /// The number of entries that pass the filter of `tab` and of the
    /// selected proxy.
    pub fn get_tab_log_count(&self, tab: TabType) -> (n: usize)
        ensures
            n == self@.tab_count(tab),
    {
        let at = self.positions_in_tab(tab);
        proof {
            lemma_matching_indices_filter(self.logs@, visible_pred(self.selected_proxy, tab));
        }
        at.len()
    }
}

} // verus!
