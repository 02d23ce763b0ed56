//! The detail overlay: which entry it shows and how far it is scrolled.

use vstd::prelude::*;
use crate::app::App;
use crate::detail::{format_entry, formatted_entry};
use crate::model::DETAIL_SCROLL_STEP;
use crate::types::{LogEntry, LogLevel};

verus! {

impl App {
    /// Chooses the entry under the cursor for the detail view.
    pub fn select_log_at_cursor(&mut self)
        ensures
            final(self)@ == old(self)@.select_log_at_cursor(),
    {
        let at = self.shown_positions();
        if self.selected_index < at.len() {
            self.selected_log_index = Some(at[self.selected_index]);
            assert(self@ =~= old(self)@.select_log_at_cursor());
        }
    }

    /// Opens the detail view if the chosen entry is a request or a response.
    pub fn show_selected_log_detail(&mut self)
        ensures
            final(self)@ == old(self)@.show_selected_log_detail(),
    {
        match self.selected_log_index {
            Some(index) => {
                if index < self.logs.len() {
                    let level = self.logs[index].level;
                    if level == LogLevel::Request || level == LogLevel::Response {
                        self.show_detail_view = true;
                        assert(self@ =~= old(self)@.show_selected_log_detail());
                    }
                }
            },
            None => {},
        }
    }

    /// Closes the detail view and forgets the chosen entry.
    pub fn hide_detail_view(&mut self)
        ensures
            final(self)@ == old(self)@.hide_detail_view(),
    {
        self.show_detail_view = false;
        self.selected_log_index = None;
        self.detail_scroll_offset = 0;
        assert(self@ =~= old(self)@.hide_detail_view());
    }

    /// Switches word wrap on or off and scrolls back to the top.
    pub fn toggle_word_wrap(&mut self)
        ensures
            final(self)@ == old(self)@.toggle_word_wrap(),
    {
        self.detail_word_wrap = !self.detail_word_wrap;
        self.detail_scroll_offset = 0;
        assert(self@ =~= old(self)@.toggle_word_wrap());
    }

    /// Scrolls the detail view up, stopping at the top.
    pub fn detail_scroll_up(&mut self)
        ensures
            final(self)@ == old(self)@.detail_scroll_up(),
    {
        self.detail_scroll_offset = if self.detail_scroll_offset >= DETAIL_SCROLL_STEP {
            self.detail_scroll_offset - DETAIL_SCROLL_STEP
        } else {
            0
        };
        assert(self@ =~= old(self)@.detail_scroll_up());
    }

    /// Scrolls the detail view down, stopping at the largest offset.
    pub fn detail_scroll_down(&mut self)
        ensures
            final(self)@ == old(self)@.detail_scroll_down(),
    {
        self.detail_scroll_offset = if self.detail_scroll_offset <= u16::MAX
            - DETAIL_SCROLL_STEP {
            self.detail_scroll_offset + DETAIL_SCROLL_STEP
        } else {
            u16::MAX
        };
        assert(self@ =~= old(self)@.detail_scroll_down());
    }

    /// The entry chosen for the detail view.
    pub fn get_selected_log(&self) -> (r: Option<&LogEntry>)
        ensures
            r is Some == self@.selected_log() is Some,
            r matches Some(entry) ==> self@.selected_log() == Some(*entry),
    {
        match self.selected_log_index {
            Some(index) => {
                if index < self.logs.len() {
                    Some(&self.logs[index])
                } else {
                    None
                }
            },
            None => None,
        }
    }

    /// The text shown for `log` in the detail view.
    pub fn format_log_content(&self, log: &LogEntry) -> (r: String)
        ensures
            r@ == formatted_entry(*log),
    {
        format_entry(log)
    }
}

} // verus!
