//! The monitor's state as a mathematical value, and each of its transitions
//! as a function on that value.

use vstd::prelude::*;
use crate::listing::{items_at, matching_indices};
use crate::nav::{FocusArea, ListStateView, NavigationMode, TabStatesView, TabType};
use crate::text::{has_substring, lowercase, text_le};
use crate::types::{LogEntry, LogLevel, ProxyId, ProxyInfo, ProxyStats};

verus! {

/// The log keeps at most this many entries; older ones are evicted first.
pub const MAX_LOGS: usize = 10_000;

/// Selection moves by this many entries on a page key.
pub const PAGE_SIZE: usize = 10;

/// The detail view scrolls by this many lines per key.
pub const DETAIL_SCROLL_STEP: u16 = 3;

/// An event delivered to the monitor by a proxy.
#[derive(Debug)]
pub enum AppEvent {
    ProxyConnected(ProxyInfo),
    ProxyDisconnected(ProxyId),
    NewLogEntry(LogEntry),
    StatsUpdate(ProxyStats),
}

/// Whether `entry` passes the proxy filter and belongs to `tab`.
pub open spec fn visible(entry: LogEntry, proxy: Option<ProxyId>, tab: TabType) -> bool {
    (proxy matches Some(p) ==> entry.proxy_id == p) && tab.spec_shows(entry.level)
}

/// [`visible`] as a predicate on entries.
pub open spec fn visible_pred(proxy: Option<ProxyId>, tab: TabType) -> spec_fn(LogEntry) -> bool {
    |entry: LogEntry| visible(entry, proxy, tab)
}

/// Whether the lower-cased `needle` occurs in the lower-cased message of
/// `entry`, in the lower-cased name of its proxy if that proxy is known, or
/// in the lower-cased name of its level.
pub open spec fn search_hit(
    entry: LogEntry,
    needle: Seq<char>,
    proxies: Map<u128, ProxyInfo>,
) -> bool {
    ||| has_substring(lowercase(entry.message@), needle)
    ||| (proxies.contains_key(entry.proxy_id.0) && has_substring(
        lowercase(proxies[entry.proxy_id.0].name@),
        needle,
    ))
    ||| has_substring(lowercase(entry.level.spec_name()), needle)
}

/// Entries that are visible and hit by the search.
pub open spec fn search_pred(
    proxy: Option<ProxyId>,
    tab: TabType,
    needle: Seq<char>,
    proxies: Map<u128, ProxyInfo>,
) -> spec_fn(LogEntry) -> bool {
    |entry: LogEntry| visible(entry, proxy, tab) && search_hit(entry, needle, proxies)
}

/// Positions below `len`.
pub open spec fn in_range_pred(len: nat) -> spec_fn(int) -> bool {
    |i: int| 0 <= i < len
}

/// Whether `list` names every proxy of `proxies` exactly once, ordered by
/// name.
pub open spec fn is_proxy_listing(list: Seq<ProxyInfo>, proxies: Map<u128, ProxyInfo>) -> bool {
    &&& forall|i: int, j: int|
        0 <= i < j < list.len() ==> text_le(#[trigger] list[i].name@, #[trigger] list[j].name@)
    &&& exists|keys: Seq<u128>| is_key_listing(keys, list, proxies)
}

/// Whether `keys` enumerates the keys of `proxies` without repetition and
/// `list` holds the proxies stored under them, in the same order.
pub open spec fn is_key_listing(
    keys: Seq<u128>,
    list: Seq<ProxyInfo>,
    proxies: Map<u128, ProxyInfo>,
) -> bool {
    &&& keys.no_duplicates()
    &&& keys.len() == list.len()
    &&& keys.to_set() == proxies.dom()
    &&& forall|i: int| 0 <= i < keys.len() ==> #[trigger] list[i] == proxies[keys[i]]
}

/// The monitor's state.
#[verifier::ext_equal]
pub struct AppView {
    pub proxies: Map<u128, ProxyInfo>,
    pub logs: Seq<LogEntry>,
    pub selected_index: nat,
    pub viewport_offset: nat,
    pub selected_proxy: Option<ProxyId>,
    pub proxy_selected_index: nat,
    pub focus_area: FocusArea,
    pub active_tab: TabType,
    pub tab_states: TabStatesView,
    pub selected_log_index: Option<int>,
    pub show_detail_view: bool,
    pub detail_word_wrap: bool,
    pub detail_scroll_offset: u16,
    pub navigation_mode: NavigationMode,
    pub search_query: Seq<char>,
    pub search_results: Seq<int>,
    pub search_cursor: nat,
    pub show_help_dialog: bool,
}

impl AppView {
    /// The state at startup: nothing known, the Messages tab active, the log
    /// view focused and following.
    pub open spec fn initial() -> AppView {
        AppView {
            proxies: Map::empty(),
            logs: Seq::empty(),
            selected_index: 0,
            viewport_offset: 0,
            selected_proxy: None,
            proxy_selected_index: 0,
            focus_area: FocusArea::LogView,
            active_tab: TabType::Messages,
            tab_states: TabStatesView::initial(),
            selected_log_index: None,
            show_detail_view: false,
            detail_word_wrap: true,
            detail_scroll_offset: 0,
            navigation_mode: NavigationMode::Follow,
            search_query: Seq::empty(),
            search_results: Seq::empty(),
            search_cursor: 0,
            show_help_dialog: false,
        }
    }

    /// The search cursor lies within the query.
    pub open spec fn wf(self) -> bool {
        self.search_cursor <= self.search_query.len()
    }

    // ----- what is shown -----

    /// The filter of the active tab and the selected proxy.
    pub open spec fn filter_pred(self) -> spec_fn(LogEntry) -> bool {
        visible_pred(self.selected_proxy, self.active_tab)
    }

    /// Positions of the entries that pass the active filter.
    pub open spec fn filtered_indices(self) -> Seq<int> {
        matching_indices(self.logs, self.filter_pred())
    }

    /// The entries that pass the active filter, in log order.
    pub open spec fn filtered(self) -> Seq<LogEntry> {
        self.logs.filter(self.filter_pred())
    }

    /// The number of entries that pass the filter of `tab` and of the
    /// selected proxy.
    pub open spec fn tab_count(self, tab: TabType) -> nat {
        self.logs.filter(visible_pred(self.selected_proxy, tab)).len()
    }

    /// The search results that still point into the log.
    pub open spec fn live_results(self) -> Seq<int> {
        self.search_results.filter(in_range_pred(self.logs.len()))
    }

    /// Whether the list shows search results: in a search mode, once there
    /// is a query.
    pub open spec fn searching(self) -> bool {
        self.navigation_mode.spec_is_search() && self.search_query.len() > 0
    }

    /// Positions of the entries in the list: the live search results while
    /// searching, the filtered entries otherwise.
    pub open spec fn shown_indices(self) -> Seq<int> {
        if self.searching() {
            self.live_results()
        } else {
            self.filtered_indices()
        }
    }

    /// The entries in the list.
    pub open spec fn shown(self) -> Seq<LogEntry> {
        items_at(self.logs, self.shown_indices())
    }

    /// The number of entries in the list.
    pub open spec fn shown_len(self) -> nat {
        self.shown_indices().len()
    }

    /// The positions that a search for the current query finds: none for an
    /// empty query, else the visible entries hit by the lower-cased query.
    pub open spec fn search_hits(self) -> Seq<int> {
        if self.search_query.len() == 0 {
            Seq::empty()
        } else {
            matching_indices(
                self.logs,
                search_pred(
                    self.selected_proxy,
                    self.active_tab,
                    lowercase(self.search_query),
                    self.proxies,
                ),
            )
        }
    }

    /// The part of the list that a viewport of `height` rows shows.
    pub open spec fn visible_window(self, height: nat) -> Seq<LogEntry> {
        let shown = self.shown();
        if shown.len() == 0 || height == 0 {
            Seq::empty()
        } else {
            let start = if self.viewport_offset <= shown.len() - 1 {
                self.viewport_offset as int
            } else {
                shown.len() - 1
            };
            let end = if start + height <= shown.len() {
                start + height
            } else {
                shown.len() as int
            };
            shown.subrange(start, end)
        }
    }

    /// The row of the selection inside a viewport of `height` rows, if the
    /// selection is inside it.
    pub open spec fn relative_selection(self, height: nat) -> Option<nat> {
        let len = self.shown_len();
        let end = if self.viewport_offset + height <= len {
            self.viewport_offset + height
        } else {
            len
        };
        if len > 0 && self.viewport_offset <= self.selected_index < end {
            Some((self.selected_index - self.viewport_offset) as nat)
        } else {
            None
        }
    }

    /// The entry chosen for the detail view.
    pub open spec fn selected_log(self) -> Option<LogEntry> {
        match self.selected_log_index {
            Some(i) => if 0 <= i < self.logs.len() {
                Some(self.logs[i])
            } else {
                None
            },
            None => None,
        }
    }

    // ----- events -----

    /// The state after `event`.
    pub open spec fn handle_event(self, event: AppEvent) -> AppView {
        match event {
            AppEvent::ProxyConnected(info) => self.proxy_connected(info),
            AppEvent::ProxyDisconnected(id) => self.proxy_disconnected(id),
            AppEvent::NewLogEntry(entry) => self.log_appended(entry),
            AppEvent::StatsUpdate(stats) => self.stats_updated(stats),
        }
    }

    /// A proxy is registered under its identifier, replacing an earlier one.
    pub open spec fn proxy_connected(self, info: ProxyInfo) -> AppView {
        AppView { proxies: self.proxies.insert(info.id.0, info), ..self }
    }

    /// A proxy is forgotten; a filter on it is cleared.
    pub open spec fn proxy_disconnected(self, id: ProxyId) -> AppView {
        AppView {
            proxies: self.proxies.remove(id.0),
            selected_proxy: if self.selected_proxy == Some(id) {
                None
            } else {
                self.selected_proxy
            },
            ..self
        }
    }

    /// The counters of a known proxy are replaced; those of an unknown one
    /// are ignored.
    pub open spec fn stats_updated(self, stats: ProxyStats) -> AppView {
        let key = stats.proxy_id.0;
        if self.proxies.contains_key(key) {
            AppView {
                proxies: self.proxies.insert(key, ProxyInfo { stats, ..self.proxies[key] }),
                ..self
            }
        } else {
            self
        }
    }

    /// How many of the oldest entries leave when one entry is appended.
    pub open spec fn eviction_count(self) -> nat {
        if self.logs.len() + 1 > MAX_LOGS {
            (self.logs.len() + 1 - MAX_LOGS) as nat
        } else {
            0
        }
    }

    /// An entry is appended; the oldest entries beyond the cap leave and the
    /// saved tab positions move with them; in Follow mode the selection
    /// snaps to the last entry of the list.
    pub open spec fn log_appended(self, entry: LogEntry) -> AppView {
        let excess = self.eviction_count();
        let s = AppView {
            logs: self.logs.push(entry).skip(excess as int),
            tab_states: self.tab_states.shifted(excess),
            ..self
        };
        if s.navigation_mode == NavigationMode::Follow && s.shown_len() > 0 {
            AppView { selected_index: (s.shown_len() - 1) as nat, ..s }
        } else {
            s
        }
    }

    /// The log is emptied and every list position returns to its start.
    pub open spec fn clear_logs(self) -> AppView {
        AppView {
            logs: Seq::empty(),
            selected_index: 0,
            viewport_offset: 0,
            navigation_mode: NavigationMode::Follow,
            tab_states: TabStatesView::initial(),
            ..self
        }
    }

    // ----- list navigation -----

    /// The current list position is saved under the active tab.
    pub open spec fn saved(self) -> AppView {
        AppView {
            tab_states: self.tab_states.set(
                self.active_tab,
                ListStateView {
                    selected_index: self.selected_index,
                    viewport_offset: self.viewport_offset,
                    navigation_mode: self.navigation_mode,
                },
            ),
            ..self
        }
    }

    /// Follow mode gives way to Navigate.
    pub open spec fn scrolling(self) -> AppView {
        AppView { navigation_mode: self.navigation_mode.spec_after_scroll(), ..self }
    }

    /// The selection and nothing else is changed, then saved.
    pub open spec fn select(self, index: nat) -> AppView {
        AppView { selected_index: index, ..self }.saved()
    }

    /// The selection moves up by one entry, if it is not on the first.
    pub open spec fn scroll_up(self) -> AppView {
        let s = self.scrolling();
        if s.selected_index > 0 {
            s.select((s.selected_index - 1) as nat)
        } else {
            s
        }
    }

    /// The selection moves down by one entry, if it is not on the last.
    pub open spec fn scroll_down(self) -> AppView {
        let s = self.scrolling();
        if s.selected_index + 1 < s.shown_len() {
            s.select((s.selected_index + 1) as nat)
        } else {
            s
        }
    }

    /// The selection moves up by a page, stopping at the first entry.
    pub open spec fn page_up(self) -> AppView {
        let s = self.scrolling();
        s.select(if s.selected_index >= PAGE_SIZE { (s.selected_index - PAGE_SIZE) as nat } else { 0 })
    }

    /// The selection moves down by a page, stopping at the last entry.
    pub open spec fn page_down(self) -> AppView {
        let s = self.scrolling();
        let len = s.shown_len();
        if len > 0 {
            s.select(if s.selected_index + PAGE_SIZE <= len - 1 {
                (s.selected_index + PAGE_SIZE) as nat
            } else {
                (len - 1) as nat
            })
        } else {
            s
        }
    }

    /// Selection and viewport move to the first entry.
    pub open spec fn scroll_to_top(self) -> AppView {
        let s = self.scrolling();
        AppView { selected_index: 0, viewport_offset: 0, ..s }.saved()
    }

    /// The selection moves to the last entry.
    pub open spec fn scroll_to_bottom(self) -> AppView {
        let s = self.scrolling();
        if s.shown_len() > 0 {
            s.select((s.shown_len() - 1) as nat)
        } else {
            s
        }
    }

    /// Escape in the log view: a search is left; otherwise the list returns
    /// to Follow and snaps to its last entry.
    pub open spec fn exit_navigation_mode(self) -> AppView {
        if self.navigation_mode.spec_is_search() {
            self.exit_search_mode()
        } else {
            let s = AppView { navigation_mode: NavigationMode::Follow, ..self };
            if s.shown_len() > 0 {
                s.select((s.shown_len() - 1) as nat)
            } else {
                s
            }
        }
    }

    /// Selection and viewport are made consistent with the list and with a
    /// viewport of `height` rows.
    pub open spec fn prepare_viewport(self, height: nat) -> AppView {
        let len = self.shown_len();
        if len == 0 {
            AppView { selected_index: 0, viewport_offset: 0, ..self }
        } else {
            let sel: nat = if self.selected_index >= len {
                (len - 1) as nat
            } else {
                self.selected_index
            };
            let off: nat = if height == 0 {
                self.viewport_offset
            } else if sel < self.viewport_offset {
                sel
            } else if sel >= self.viewport_offset + height {
                (sel - (height - 1)) as nat
            } else {
                self.viewport_offset
            };
            AppView {
                selected_index: sel,
                viewport_offset: if off <= len - 1 {
                    off
                } else {
                    (len - 1) as nat
                },
                ..self
            }
        }
    }

    // ----- tabs -----

    /// The active tab's position is saved, `tab` becomes active with its
    /// saved position, and the selection is clamped to the filtered entries.
    pub open spec fn switch_tab(self, tab: TabType) -> AppView {
        let saved = self.saved();
        let state = saved.tab_states.get(tab);
        let s = AppView {
            active_tab: tab,
            selected_index: state.selected_index,
            viewport_offset: state.viewport_offset,
            navigation_mode: state.navigation_mode,
            ..saved
        };
        let len = s.filtered_indices().len();
        if len == 0 {
            AppView { selected_index: 0, viewport_offset: 0, ..s }
        } else if s.selected_index >= len {
            AppView { selected_index: (len - 1) as nat, ..s }
        } else {
            s
        }
    }

    /// The tab after the active one becomes active.
    pub open spec fn next_tab(self) -> AppView {
        self.switch_tab(self.active_tab.spec_next())
    }

    /// The tab before the active one becomes active.
    pub open spec fn prev_tab(self) -> AppView {
        self.switch_tab(self.active_tab.spec_prev())
    }

    // ----- focus and proxy selection -----

    /// The proxy list takes the focus.
    pub open spec fn switch_focus_to_proxy_list(self) -> AppView {
        AppView { focus_area: FocusArea::ProxyList, ..self }
    }

    /// The log view takes the focus.
    pub open spec fn switch_focus_to_logs(self) -> AppView {
        AppView { focus_area: FocusArea::LogView, ..self }
    }

    /// The proxy cursor moves up by one row, if it is not on the first.
    pub open spec fn proxy_scroll_up(self) -> AppView {
        if self.proxy_selected_index > 0 {
            AppView { proxy_selected_index: (self.proxy_selected_index - 1) as nat, ..self }
        } else {
            self
        }
    }

    /// The proxy cursor moves down by one row, if it is not on the last.
    pub open spec fn proxy_scroll_down(self) -> AppView {
        if self.proxy_selected_index + 1 < self.proxies.len() {
            AppView { proxy_selected_index: (self.proxy_selected_index + 1) as nat, ..self }
        } else {
            self
        }
    }

    /// The proxy filter becomes `proxy`; the list follows again, with the
    /// selection on the last filtered entry.
    pub open spec fn with_proxy_filter(self, proxy: Option<ProxyId>) -> AppView {
        let s = AppView { selected_proxy: proxy, navigation_mode: NavigationMode::Follow, ..self };
        let len = s.filtered_indices().len();
        AppView {
            selected_index: if len > 0 {
                (len - 1) as nat
            } else {
                0
            },
            viewport_offset: 0,
            ..s
        }.saved()
    }

    /// Whether `next` is a state that choosing the proxy under the cursor
    /// may lead to: with the cursor on a row of some listing of the proxies
    /// by name, the filter is that row's proxy; with the cursor beyond the
    /// list, nothing changes.
    pub open spec fn select_current_proxy(self, next: AppView) -> bool {
        if self.proxy_selected_index < self.proxies.len() {
            exists|list: Seq<ProxyInfo>|
                #![auto]
                is_proxy_listing(list, self.proxies) && self.proxy_selected_index < list.len()
                    && next == self.with_proxy_filter(Some(list[self.proxy_selected_index as int].id))
        } else {
            next == self
        }
    }

    /// The proxy filter is cleared; the list follows again.
    pub open spec fn clear_proxy_selection(self) -> AppView {
        self.with_proxy_filter(None)
    }

    // ----- detail view -----

    /// The entry under the cursor is chosen for the detail view.
    pub open spec fn select_log_at_cursor(self) -> AppView {
        if self.selected_index < self.shown_len() {
            AppView {
                selected_log_index: Some(self.shown_indices()[self.selected_index as int]),
                ..self
            }
        } else {
            self
        }
    }

    /// The detail view opens if the chosen entry is a request or a response.
    pub open spec fn show_selected_log_detail(self) -> AppView {
        match self.selected_log() {
            Some(entry) => if entry.level == LogLevel::Request || entry.level
                == LogLevel::Response {
                AppView { show_detail_view: true, ..self }
            } else {
                self
            },
            None => self,
        }
    }

    /// The detail view closes, forgets its entry and scrolls back to the top.
    pub open spec fn hide_detail_view(self) -> AppView {
        AppView {
            show_detail_view: false,
            selected_log_index: None,
            detail_scroll_offset: 0,
            ..self
        }
    }

    /// Word wrap is switched; the detail view scrolls back to the top.
    pub open spec fn toggle_word_wrap(self) -> AppView {
        AppView { detail_word_wrap: !self.detail_word_wrap, detail_scroll_offset: 0, ..self }
    }

    /// The detail view scrolls up by one step, stopping at the top.
    pub open spec fn detail_scroll_up(self) -> AppView {
        AppView {
            detail_scroll_offset: if self.detail_scroll_offset >= DETAIL_SCROLL_STEP {
                (self.detail_scroll_offset - DETAIL_SCROLL_STEP) as u16
            } else {
                0
            },
            ..self
        }
    }

    /// The detail view scrolls down by one step, stopping at the largest offset.
    pub open spec fn detail_scroll_down(self) -> AppView {
        AppView {
            detail_scroll_offset: if self.detail_scroll_offset + DETAIL_SCROLL_STEP <= u16::MAX {
                (self.detail_scroll_offset + DETAIL_SCROLL_STEP) as u16
            } else {
                u16::MAX
            },
            ..self
        }
    }

    // ----- search -----

    /// The search opens with an empty query and the selection on the first entry.
    pub open spec fn enter_search_mode(self) -> AppView {
        AppView {
            navigation_mode: NavigationMode::Search,
            search_query: Seq::empty(),
            search_results: Seq::empty(),
            search_cursor: 0,
            selected_index: 0,
            viewport_offset: 0,
            ..self
        }
    }

    /// The search is dropped; the list shows the filtered entries again, in
    /// Navigate mode, with the selection on the last of them.
    pub open spec fn exit_search_mode(self) -> AppView {
        let s = AppView {
            navigation_mode: NavigationMode::Navigate,
            search_query: Seq::empty(),
            search_results: Seq::empty(),
            search_cursor: 0,
            ..self
        };
        let len = s.filtered_indices().len();
        if len > 0 {
            AppView { selected_index: (len - 1) as nat, ..s }.saved()
        } else {
            s.saved()
        }
    }

    /// The results stay on screen and the query is no longer edited.
    pub open spec fn confirm_search_results(self) -> AppView {
        AppView {
            navigation_mode: NavigationMode::SearchResults,
            search_cursor: 0,
            ..self
        }.saved()
    }

    /// The results are recomputed for the current query and the selection
    /// returns to the first of them.
    pub open spec fn with_fresh_results(self) -> AppView {
        AppView {
            search_results: self.search_hits(),
            selected_index: 0,
            viewport_offset: 0,
            ..self
        }
    }

    /// In Search mode, `c` is inserted at the cursor and the search runs again.
    pub open spec fn search_input_char(self, c: char) -> AppView {
        if self.navigation_mode == NavigationMode::Search {
            AppView {
                search_query: self.search_query.insert(self.search_cursor as int, c),
                search_cursor: (self.search_cursor + 1) as nat,
                ..self
            }.with_fresh_results()
        } else {
            self
        }
    }

    /// In Search mode, the character before the cursor is removed and the search runs again.
    pub open spec fn search_backspace(self) -> AppView {
        if self.navigation_mode == NavigationMode::Search && self.search_cursor > 0 {
            AppView {
                search_query: self.search_query.remove(self.search_cursor - 1),
                search_cursor: (self.search_cursor - 1) as nat,
                ..self
            }.with_fresh_results()
        } else {
            self
        }
    }

    /// In Search mode, the character under the cursor is removed and the search runs again.
    pub open spec fn search_delete(self) -> AppView {
        if self.navigation_mode == NavigationMode::Search && self.search_cursor
            < self.search_query.len() {
            AppView {
                search_query: self.search_query.remove(self.search_cursor as int),
                ..self
            }.with_fresh_results()
        } else {
            self
        }
    }

    /// In Search mode, the cursor moves one character to the left.
    pub open spec fn search_cursor_left(self) -> AppView {
        if self.navigation_mode == NavigationMode::Search && self.search_cursor > 0 {
            AppView { search_cursor: (self.search_cursor - 1) as nat, ..self }
        } else {
            self
        }
    }

    /// In Search mode, the cursor moves one character to the right.
    pub open spec fn search_cursor_right(self) -> AppView {
        if self.navigation_mode == NavigationMode::Search && self.search_cursor
            < self.search_query.len() {
            AppView { search_cursor: (self.search_cursor + 1) as nat, ..self }
        } else {
            self
        }
    }

    /// In Search mode, the cursor moves before the first character.
    pub open spec fn search_cursor_home(self) -> AppView {
        if self.navigation_mode == NavigationMode::Search {
            AppView { search_cursor: 0, ..self }
        } else {
            self
        }
    }

    /// In Search mode, the cursor moves behind the last character.
    pub open spec fn search_cursor_end(self) -> AppView {
        if self.navigation_mode == NavigationMode::Search {
            AppView { search_cursor: self.search_query.len(), ..self }
        } else {
            self
        }
    }
}

} // verus!
