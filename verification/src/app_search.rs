//! Searching the log: the query, its cursor, and the matching entries.

use vstd::prelude::*;
use vstd::string::*;
use std::collections::HashMap;
use crate::app::{is_visible, App};
use crate::listing::{lemma_matching_indices_step, matching_indices, positions};
use crate::model::{search_hit, search_pred, AppView};
use crate::nav::NavigationMode;
use crate::text::{contains, push_char, text_from, text_until, to_lowercase};
use crate::types::{LogEntry, ProxyInfo};

verus! {

broadcast use vstd::std_specs::hash::group_hash_axioms;

/// Whether the lower-cased `needle` occurs in the entry's message, in the
/// name of its proxy if `proxies` knows it, or in the name of its level, each
/// lower-cased.
pub fn is_search_hit(entry: &LogEntry, needle: &str, proxies: &HashMap<u128, ProxyInfo>) -> (r:
    bool)
    ensures
        r == search_hit(*entry, needle@, proxies@),
{
    let message = to_lowercase(entry.message.as_str());
    if contains(message.as_str(), needle) {
        return true;
    }
    let key = entry.proxy_id.0;
    match proxies.get(&key) {
        Some(info) => {
            let name = to_lowercase(info.name.as_str());
            if contains(name.as_str(), needle) {
                return true;
            }
        },
        None => {},
    }
    let level = to_lowercase(entry.level.name());
    contains(level.as_str(), needle)
}

impl App {
    /// Whether the search cursor lies within the query.
    pub fn cursor_in_query(&self) -> (r: bool)
        ensures
            r == self@.wf(),
    {
        self.search_cursor <= self.search_query.as_str().unicode_len()
    }

    /// Opens the search with an empty query.
    pub fn enter_search_mode(&mut self)
        ensures
            final(self)@ == old(self)@.enter_search_mode(),
            final(self)@.wf(),
    {
        self.navigation_mode = NavigationMode::Search;
        self.search_query = String::new();
        self.search_results = Vec::new();
        self.search_cursor = 0;
        self.selected_index = 0;
        self.viewport_offset = 0;
        assert(self@ =~= old(self)@.enter_search_mode());
    }

    /// Drops the search and returns to the filtered entries in Navigate mode.
    pub fn exit_search_mode(&mut self)
        ensures
            final(self)@ == old(self)@.exit_search_mode(),
            final(self)@.wf(),
    {
        self.navigation_mode = NavigationMode::Navigate;
        self.search_query = String::new();
        self.search_results = Vec::new();
        self.search_cursor = 0;
        let count = self.get_filtered_logs().len();
        if count > 0 {
            self.selected_index = count - 1;
        }
        let ghost before = self@;
        self.save_tab_state();
        assert(before =~= if count > 0 {
            AppView {
                selected_index: (count - 1) as nat,
                navigation_mode: NavigationMode::Navigate,
                search_query: Seq::empty(),
                search_results: Seq::empty(),
                search_cursor: 0,
                ..old(self)@
            }
        } else {
            AppView {
                navigation_mode: NavigationMode::Navigate,
                search_query: Seq::empty(),
                search_results: Seq::empty(),
                search_cursor: 0,
                ..old(self)@
            }
        });
    }

    /// Escape in the log view: leaves a search, or returns to Follow.
    pub fn exit_navigation_mode(&mut self)
        ensures
            final(self)@ == old(self)@.exit_navigation_mode(),
    {
        if self.navigation_mode.is_search() {
            self.exit_search_mode();
        } else {
            self.navigation_mode = NavigationMode::Follow;
            let ghost s = self@;
            assert(s =~= AppView { navigation_mode: NavigationMode::Follow, ..old(self)@ });
            let count = self.get_search_filtered_logs().len();
            if count > 0 {
                self.selected_index = count - 1;
                self.save_tab_state();
            }
        }
    }

    /// Keeps the results on screen and ends the editing of the query.
    pub fn confirm_search_results(&mut self)
        ensures
            final(self)@ == old(self)@.confirm_search_results(),
    {
        self.navigation_mode = NavigationMode::SearchResults;
        self.search_cursor = 0;
        self.save_tab_state();
    }

    /// Recomputes the results for the current query and returns the
    /// selection to the first of them.
    pub(crate) fn update_search_results(&mut self)
        ensures
            final(self)@ == old(self)@.with_fresh_results(),
    {
        let mut results: Vec<usize> = Vec::new();
        if !self.search_query.as_str().is_empty() {
            let needle = to_lowercase(self.search_query.as_str());
            let ghost pred = search_pred(
                self.selected_proxy,
                self.active_tab,
                needle@,
                self.proxies@,
            );
            let mut i: usize = 0;
            assert(self.logs@.take(0) =~= Seq::<LogEntry>::empty());
            assert(positions(results@) =~= matching_indices(self.logs@.take(0), pred));
            while i < self.logs.len()
                invariant
                    i <= self.logs.len(),
                    pred == search_pred(
                        self.selected_proxy,
                        self.active_tab,
                        needle@,
                        self.proxies@,
                    ),
                    positions(results@) == matching_indices(self.logs@.take(i as int), pred),
                decreases self.logs.len() - i,
            {
                proof {
                    lemma_matching_indices_step(self.logs@, pred, i as int);
                }
                let ghost before = results@;
                let entry = &self.logs[i];
                if is_visible(entry, &self.selected_proxy, self.active_tab) && is_search_hit(
                    entry,
                    needle.as_str(),
                    &self.proxies,
                ) {
                    results.push(i);
                    assert(positions(results@) =~= positions(before).push(i as int));
                }
                i = i + 1;
            }
            assert(self.logs@.take(i as int) =~= self.logs@);
        } else {
            assert(positions(results@) =~= Seq::<int>::empty());
        }
        self.search_results = results;
        self.selected_index = 0;
        self.viewport_offset = 0;
        assert(self@ =~= old(self)@.with_fresh_results());
    }

    /// Inserts `c` at the cursor and searches again.
    pub fn search_input_char(&mut self, c: char)
        requires
            old(self)@.wf(),
        ensures
            final(self)@ == old(self)@.search_input_char(c),
            final(self)@.wf(),
    {
        if self.navigation_mode == NavigationMode::Search {
            let mut query = text_until(self.search_query.as_str(), self.search_cursor);
            push_char(&mut query, c);
            let rest = text_from(self.search_query.as_str(), self.search_cursor);
            query.append(rest.as_str());
            assert(query@ =~= old(self).search_query@.insert(old(self).search_cursor as int, c));
            let len = query.as_str().unicode_len();
            assert(self.search_cursor < len);
            self.search_query = query;
            self.search_cursor = self.search_cursor + 1;
            assert(self@ =~= AppView {
                search_query: old(self)@.search_query.insert(old(self)@.search_cursor as int, c),
                search_cursor: (old(self)@.search_cursor + 1) as nat,
                ..old(self)@
            });
            self.update_search_results();
        }
    }

    /// Removes the character before the cursor and searches again.
    pub fn search_backspace(&mut self)
        requires
            old(self)@.wf(),
        ensures
            final(self)@ == old(self)@.search_backspace(),
            final(self)@.wf(),
    {
        if self.navigation_mode == NavigationMode::Search && self.search_cursor > 0 {
            let at = self.search_cursor - 1;
            let mut query = text_until(self.search_query.as_str(), at);
            let rest = text_from(self.search_query.as_str(), at + 1);
            query.append(rest.as_str());
            assert(query@ =~= old(self).search_query@.remove(at as int));
            self.search_query = query;
            self.search_cursor = at;
            assert(self@ =~= AppView {
                search_query: old(self)@.search_query.remove(old(self)@.search_cursor - 1),
                search_cursor: (old(self)@.search_cursor - 1) as nat,
                ..old(self)@
            });
            self.update_search_results();
        }
    }

    /// Removes the character under the cursor and searches again.
    pub fn search_delete(&mut self)
        ensures
            final(self)@ == old(self)@.search_delete(),
            old(self)@.wf() ==> final(self)@.wf(),
    {
        if self.navigation_mode == NavigationMode::Search {
            let len = self.search_query.as_str().unicode_len();
            if self.search_cursor < len {
                let at = self.search_cursor;
                let mut query = text_until(self.search_query.as_str(), at);
                let rest = text_from(self.search_query.as_str(), at + 1);
                query.append(rest.as_str());
                assert(query@ =~= old(self).search_query@.remove(at as int));
                self.search_query = query;
                assert(self@ =~= AppView {
                    search_query: old(self)@.search_query.remove(old(self)@.search_cursor as int),
                    ..old(self)@
                });
                self.update_search_results();
            }
        }
    }

    /// Moves the cursor one character to the left.
    pub fn search_cursor_left(&mut self)
        ensures
            final(self)@ == old(self)@.search_cursor_left(),
            old(self)@.wf() ==> final(self)@.wf(),
    {
        if self.navigation_mode == NavigationMode::Search && self.search_cursor > 0 {
            self.search_cursor = self.search_cursor - 1;
            assert(self@ =~= old(self)@.search_cursor_left());
        }
    }

    /// Moves the cursor one character to the right.
    pub fn search_cursor_right(&mut self)
        ensures
            final(self)@ == old(self)@.search_cursor_right(),
            old(self)@.wf() ==> final(self)@.wf(),
    {
        if self.navigation_mode == NavigationMode::Search {
            let len = self.search_query.as_str().unicode_len();
            if self.search_cursor < len {
                self.search_cursor = self.search_cursor + 1;
                assert(self@ =~= old(self)@.search_cursor_right());
            }
        }
    }

    /// Moves the cursor before the first character.
    pub fn search_cursor_home(&mut self)
        ensures
            final(self)@ == old(self)@.search_cursor_home(),
            old(self)@.wf() ==> final(self)@.wf(),
    {
        if self.navigation_mode == NavigationMode::Search {
            self.search_cursor = 0;
            assert(self@ =~= old(self)@.search_cursor_home());
        }
    }

    /// Moves the cursor behind the last character.
    pub fn search_cursor_end(&mut self)
        ensures
            final(self)@ == old(self)@.search_cursor_end(),
            old(self)@.wf() ==> final(self)@.wf(),
    {
        if self.navigation_mode == NavigationMode::Search {
            self.search_cursor = self.search_query.as_str().unicode_len();
            assert(self@ =~= old(self)@.search_cursor_end());
        }
    }
}

} // verus!
