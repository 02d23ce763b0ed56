//! Moving through the log list, the tabs and the proxy list.

use vstd::prelude::*;
use crate::app::App;
use crate::model::PAGE_SIZE;
use crate::nav::{FocusArea, ListState, NavigationMode, TabStates, TabType};
use crate::types::LogEntry;

verus! {

broadcast use vstd::std_specs::hash::group_hash_axioms;

impl App {
    /// Saves the current list position under the active tab.
    pub(crate) fn save_tab_state(&mut self)
        ensures
            final(self)@ == old(self)@.saved(),
    {
        let state = ListState {
            selected_index: self.selected_index,
            viewport_offset: self.viewport_offset,
            navigation_mode: self.navigation_mode,
        };
        self.tab_states.set(self.active_tab, state);
        assert(self@ =~= old(self)@.saved());
    }

    /// Empties the log and returns every list position to its start.
    pub fn clear_logs(&mut self)
        ensures
            final(self)@ == old(self)@.clear_logs(),
    {
        self.logs.clear();
        self.selected_index = 0;
        self.viewport_offset = 0;
        self.navigation_mode = NavigationMode::Follow;
        self.tab_states = TabStates::initial();
        assert(self@ =~= old(self)@.clear_logs());
    }

    /// Reserved for asking the proxies for fresh data; changes nothing.
    pub fn refresh(&mut self)
        ensures
            final(self)@ == old(self)@,
    {
    }

    /// Called once per interface tick; changes nothing.
    pub fn tick(&mut self)
        ensures
            final(self)@ == old(self)@,
    {
    }

    /// Moves the selection up by one entry.
    pub fn scroll_up(&mut self)
        ensures
            final(self)@ == old(self)@.scroll_up(),
    {
        self.navigation_mode = self.navigation_mode.after_scroll();
        assert(self@ =~= old(self)@.scrolling());
        if self.selected_index > 0 {
            self.selected_index = self.selected_index - 1;
            self.save_tab_state();
        }
    }

    /// Moves the selection down by one entry.
    pub fn scroll_down(&mut self)
        ensures
            final(self)@ == old(self)@.scroll_down(),
    {
        self.navigation_mode = self.navigation_mode.after_scroll();
        assert(self@ =~= old(self)@.scrolling());
        let count = self.get_search_filtered_logs().len();
        if count > 0 && self.selected_index < count - 1 {
            self.selected_index = self.selected_index + 1;
            self.save_tab_state();
        }
    }

    /// Moves the selection up by a page, stopping at the first entry.
    pub fn page_up(&mut self)
        ensures
            final(self)@ == old(self)@.page_up(),
    {
        self.navigation_mode = self.navigation_mode.after_scroll();
        assert(self@ =~= old(self)@.scrolling());
        self.selected_index = if self.selected_index >= PAGE_SIZE {
            self.selected_index - PAGE_SIZE
        } else {
            0
        };
        self.save_tab_state();
    }

    /// Moves the selection down by a page, stopping at the last entry.
    pub fn page_down(&mut self)
        ensures
            final(self)@ == old(self)@.page_down(),
    {
        self.navigation_mode = self.navigation_mode.after_scroll();
        assert(self@ =~= old(self)@.scrolling());
        let count = self.get_search_filtered_logs().len();
        if count > 0 {
            let last = count - 1;
            self.selected_index = if self.selected_index <= last && last - self.selected_index
                >= PAGE_SIZE {
                self.selected_index + PAGE_SIZE
            } else {
                last
            };
            self.save_tab_state();
        }
    }

    /// Moves selection and viewport to the first entry.
    pub fn scroll_to_top(&mut self)
        ensures
            final(self)@ == old(self)@.scroll_to_top(),
    {
        self.navigation_mode = self.navigation_mode.after_scroll();
        self.selected_index = 0;
        self.viewport_offset = 0;
        self.save_tab_state();
    }

    /// Moves the selection to the last entry.
    pub fn scroll_to_bottom(&mut self)
        ensures
            final(self)@ == old(self)@.scroll_to_bottom(),
    {
        self.navigation_mode = self.navigation_mode.after_scroll();
        assert(self@ =~= old(self)@.scrolling());
        let count = self.get_search_filtered_logs().len();
        if count > 0 {
            self.selected_index = count - 1;
            self.save_tab_state();
        }
    }

    /// Makes selection and viewport consistent with the list and with a
    /// viewport of `height` rows.
    pub fn prepare_viewport(&mut self, height: usize)
        ensures
            final(self)@ == old(self)@.prepare_viewport(height as nat),
    {
        let count = self.get_search_filtered_logs().len();
        if count == 0 {
            self.selected_index = 0;
            self.viewport_offset = 0;
            assert(self@ =~= old(self)@.prepare_viewport(height as nat));
            return ;
        }
        if self.selected_index >= count {
            self.selected_index = count - 1;
        }
        if height > 0 {
            if self.selected_index < self.viewport_offset {
                self.viewport_offset = self.selected_index;
            } else if self.selected_index - self.viewport_offset >= height {
                self.viewport_offset = self.selected_index - (height - 1);
            }
        }
        if self.viewport_offset > count - 1 {
            self.viewport_offset = count - 1;
        }
        assert(self@ =~= old(self)@.prepare_viewport(height as nat));
    }

    /// The part of the list that a viewport of `height` rows shows.
    pub fn get_visible_logs(&self, height: usize) -> (r: Vec<&LogEntry>)
        ensures
            r@.unref() == self@.visible_window(height as nat),
    {
        let at = self.shown_positions();
        let len = at.len();
        if len == 0 || height == 0 {
            let out: Vec<&LogEntry> = Vec::new();
            assert(out@.unref() =~= self@.visible_window(height as nat));
            return out;
        }
        let start = if self.viewport_offset <= len - 1 {
            self.viewport_offset
        } else {
            len - 1
        };
        let end = if height <= len - start {
            start + height
        } else {
            len
        };
        let mut window: Vec<usize> = Vec::new();
        let mut k: usize = start;
        while k < end
            invariant
                start <= k <= end <= at.len(),
                window.len() == k - start,
                forall|j: int| 0 <= j < window.len() ==> window[j] == at[start + j],
                forall|j: int| 0 <= j < at.len() ==> at[j] < self.logs.len(),
            decreases end - k,
        {
            window.push(at[k]);
            k = k + 1;
        }
        let out = self.entries_at(&window);
        assert(out@.unref() =~= self@.shown().subrange(start as int, end as int));
        out
    }

    /// The row of the selection inside a viewport of `height` rows, if the
    /// selection is inside it.
    pub fn get_relative_selection(&self, height: usize) -> (r: Option<usize>)
        ensures
            r is Some == self@.relative_selection(height as nat) is Some,
            r matches Some(row) ==> self@.relative_selection(height as nat) == Some(row as nat),
    {
        let len = self.get_search_filtered_logs().len();
        if len == 0 {
            return None;
        }
        let end = if self.viewport_offset >= len {
            len
        } else if height <= len - self.viewport_offset {
            self.viewport_offset + height
        } else {
            len
        };
        if self.selected_index >= self.viewport_offset && self.selected_index < end {
            Some(self.selected_index - self.viewport_offset)
        } else {
            None
        }
    }

    /// Makes `tab` the active tab, saving the position of the tab left and
    /// restoring that of the tab entered.
    pub fn switch_tab(&mut self, tab: TabType)
        ensures
            final(self)@ == old(self)@.switch_tab(tab),
    {
        self.save_tab_state();
        self.active_tab = tab;
        let state = self.tab_states.get(tab);
        self.selected_index = state.selected_index;
        self.viewport_offset = state.viewport_offset;
        self.navigation_mode = state.navigation_mode;
        let count = self.get_filtered_logs().len();
        if count == 0 {
            self.selected_index = 0;
            self.viewport_offset = 0;
        } else if self.selected_index >= count {
            self.selected_index = count - 1;
        }
        assert(self@ =~= old(self)@.switch_tab(tab));
    }

    /// Switches to the tab after the active one, wrapping around.
    pub fn next_tab(&mut self)
        ensures
            final(self)@ == old(self)@.next_tab(),
    {
        let tab = self.active_tab.next();
        self.switch_tab(tab);
    }

    /// Switches to the tab before the active one, wrapping around.
    pub fn prev_tab(&mut self)
        ensures
            final(self)@ == old(self)@.prev_tab(),
    {
        let tab = self.active_tab.prev();
        self.switch_tab(tab);
    }

    /// Gives the focus to the proxy list.
    pub fn switch_focus_to_proxy_list(&mut self)
        ensures
            final(self)@ == old(self)@.switch_focus_to_proxy_list(),
    {
        self.focus_area = FocusArea::ProxyList;
        assert(self@ =~= old(self)@.switch_focus_to_proxy_list());
    }

    /// Gives the focus to the log view.
    pub fn switch_focus_to_logs(&mut self)
        ensures
            final(self)@ == old(self)@.switch_focus_to_logs(),
    {
        self.focus_area = FocusArea::LogView;
        assert(self@ =~= old(self)@.switch_focus_to_logs());
    }

    /// Moves the proxy cursor up by one row.
    pub fn proxy_scroll_up(&mut self)
        ensures
            final(self)@ == old(self)@.proxy_scroll_up(),
    {
        if self.proxy_selected_index > 0 {
            self.proxy_selected_index = self.proxy_selected_index - 1;
            assert(self@ =~= old(self)@.proxy_scroll_up());
        }
    }

    /// Moves the proxy cursor down by one row.
    pub fn proxy_scroll_down(&mut self)
        ensures
            final(self)@ == old(self)@.proxy_scroll_down(),
    {
        let count = self.proxies.len();
        if count > 0 && self.proxy_selected_index < count - 1 {
            self.proxy_selected_index = self.proxy_selected_index + 1;
            assert(self@ =~= old(self)@.proxy_scroll_down());
        }
    }

    /// Sets the proxy filter and lets the list follow again.
    pub(crate) fn set_proxy_filter(&mut self, proxy: Option<crate::types::ProxyId>)
        ensures
            final(self)@ == old(self)@.with_proxy_filter(proxy),
    {
        self.selected_proxy = proxy;
        self.navigation_mode = NavigationMode::Follow;
        let count = self.get_filtered_logs().len();
        if count > 0 {
            self.selected_index = count - 1;
        } else {
            self.selected_index = 0;
        }
        self.viewport_offset = 0;
        self.save_tab_state();
    }

    /// Clears the proxy filter.
    pub fn clear_proxy_selection(&mut self)
        ensures
            final(self)@ == old(self)@.clear_proxy_selection(),
    {
        self.set_proxy_filter(None);
    }
}

} // verus!
