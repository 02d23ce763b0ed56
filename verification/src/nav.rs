//! Tabs, navigation modes, focus, and the list position saved per tab.

use vstd::prelude::*;
use crate::types::LogLevel;

verus! {

/// A category filter over log levels.
#[derive(Debug, Clone, Copy, PartialEq, Eq, Hash, Structural)]
pub enum TabType {
    All,
    Messages,
    Errors,
    System,
}

impl TabType {
    /// Whether entries of `level` belong to this tab: `All` takes every
    /// level, `Messages` requests and responses, `Errors` errors and
    /// warnings, `System` info and debug.
    pub open spec fn spec_shows(self, level: LogLevel) -> bool {
        match self {
            TabType::All => true,
            TabType::Messages => level == LogLevel::Request || level == LogLevel::Response,
            TabType::Errors => level == LogLevel::Error || level == LogLevel::Warning,
            TabType::System => level == LogLevel::Info || level == LogLevel::Debug,
        }
    }

    /// Whether entries of `level` belong to this tab.
    pub fn shows(self, level: LogLevel) -> (r: bool)
        ensures
            r == self.spec_shows(level),
    {
        match self {
            TabType::All => true,
            TabType::Messages => level == LogLevel::Request || level == LogLevel::Response,
            TabType::Errors => level == LogLevel::Error || level == LogLevel::Warning,
            TabType::System => level == LogLevel::Info || level == LogLevel::Debug,
        }
    }

    /// The tab after this one, wrapping from `System` to `All`.
    pub open spec fn spec_next(self) -> TabType {
        match self {
            TabType::All => TabType::Messages,
            TabType::Messages => TabType::Errors,
            TabType::Errors => TabType::System,
            TabType::System => TabType::All,
        }
    }

    /// The tab before this one, wrapping from `All` to `System`.
    pub open spec fn spec_prev(self) -> TabType {
        match self {
            TabType::All => TabType::System,
            TabType::Messages => TabType::All,
            TabType::Errors => TabType::Messages,
            TabType::System => TabType::Errors,
        }
    }

    /// The tab after this one, wrapping around.
    pub fn next(self) -> (t: TabType)
        ensures
            t == self.spec_next(),
    {
        match self {
            TabType::All => TabType::Messages,
            TabType::Messages => TabType::Errors,
            TabType::Errors => TabType::System,
            TabType::System => TabType::All,
        }
    }

    /// The tab before this one, wrapping around.
    pub fn prev(self) -> (t: TabType)
        ensures
            t == self.spec_prev(),
    {
        match self {
            TabType::All => TabType::System,
            TabType::Messages => TabType::All,
            TabType::Errors => TabType::Messages,
            TabType::System => TabType::Errors,
        }
    }
}

/// Every level belongs to the `All` tab and to exactly one of the other
/// three.
pub proof fn lemma_tabs_partition_levels(level: LogLevel)
    ensures
        TabType::All.spec_shows(level),
        TabType::Messages.spec_shows(level) || TabType::Errors.spec_shows(level)
            || TabType::System.spec_shows(level),
        !(TabType::Messages.spec_shows(level) && TabType::Errors.spec_shows(level)),
        !(TabType::Messages.spec_shows(level) && TabType::System.spec_shows(level)),
        !(TabType::Errors.spec_shows(level) && TabType::System.spec_shows(level)),
{
}

/// How the log list reacts to new entries and to input.
#[derive(Debug, Clone, Copy, PartialEq, Eq, Hash, Structural)]
pub enum NavigationMode {
    Follow,
    Navigate,
    Search,
    SearchResults,
}

impl NavigationMode {
    /// Whether this is one of the two search modes.
    pub open spec fn spec_is_search(self) -> bool {
        self == NavigationMode::Search || self == NavigationMode::SearchResults
    }

    /// Whether this is one of the two search modes.
    pub fn is_search(self) -> (r: bool)
        ensures
            r == self.spec_is_search(),
    {
        self == NavigationMode::Search || self == NavigationMode::SearchResults
    }

    /// The mode after a scroll action: `Follow` gives way to `Navigate`.
    pub open spec fn spec_after_scroll(self) -> NavigationMode {
        if self == NavigationMode::Follow {
            NavigationMode::Navigate
        } else {
            self
        }
    }

    /// The mode after a scroll action.
    pub fn after_scroll(self) -> (m: NavigationMode)
        ensures
            m == self.spec_after_scroll(),
    {
        if self == NavigationMode::Follow {
            NavigationMode::Navigate
        } else {
            self
        }
    }
}

/// Which panel receives navigation keys.
#[derive(Debug, Clone, Copy, PartialEq, Eq, Hash, Structural)]
pub enum FocusArea {
    ProxyList,
    LogView,
}

/// Selection, viewport and mode of a log list.
#[derive(Debug, Clone, Copy, PartialEq, Eq, Structural)]
pub struct ListState {
    pub selected_index: usize,
    pub viewport_offset: usize,
    pub navigation_mode: NavigationMode,
}

/// [`ListState`] with unbounded positions.
pub struct ListStateView {
    pub selected_index: nat,
    pub viewport_offset: nat,
    pub navigation_mode: NavigationMode,
}

impl View for ListState {
    type V = ListStateView;

    open spec fn view(&self) -> ListStateView {
        ListStateView {
            selected_index: self.selected_index as nat,
            viewport_offset: self.viewport_offset as nat,
            navigation_mode: self.navigation_mode,
        }
    }
}

impl ListStateView {
    /// The state of a list that was never touched.
    pub open spec fn initial() -> ListStateView {
        ListStateView { selected_index: 0, viewport_offset: 0, navigation_mode: NavigationMode::Follow }
    }

    /// The state after `count` entries were removed from the front of the
    /// log: both positions move up by `count`, stopping at zero.
    pub open spec fn shifted(self, count: nat) -> ListStateView {
        ListStateView {
            selected_index: if self.selected_index >= count {
                (self.selected_index - count) as nat
            } else {
                0
            },
            viewport_offset: if self.viewport_offset >= count {
                (self.viewport_offset - count) as nat
            } else {
                0
            },
            navigation_mode: self.navigation_mode,
        }
    }
}

impl ListState {
    /// The state of a list that was never touched.
    pub fn initial() -> (s: ListState)
        ensures
            s@ == ListStateView::initial(),
    {
        ListState { selected_index: 0, viewport_offset: 0, navigation_mode: NavigationMode::Follow }
    }

    /// The state after `count` entries were removed from the front of the log.
    pub fn shifted(self, count: usize) -> (s: ListState)
        ensures
            s@ == self@.shifted(count as nat),
    {
        ListState {
            selected_index: if self.selected_index >= count {
                self.selected_index - count
            } else {
                0
            },
            viewport_offset: if self.viewport_offset >= count {
                self.viewport_offset - count
            } else {
                0
            },
            navigation_mode: self.navigation_mode,
        }
    }
}

/// The list state saved for each tab.
#[derive(Debug, Clone, Copy, PartialEq, Eq, Structural)]
pub struct TabStates {
    pub all: ListState,
    pub messages: ListState,
    pub errors: ListState,
    pub system: ListState,
}

/// [`TabStates`] with unbounded positions.
pub struct TabStatesView {
    pub all: ListStateView,
    pub messages: ListStateView,
    pub errors: ListStateView,
    pub system: ListStateView,
}

impl View for TabStates {
    type V = TabStatesView;

    open spec fn view(&self) -> TabStatesView {
        TabStatesView {
            all: self.all@,
            messages: self.messages@,
            errors: self.errors@,
            system: self.system@,
        }
    }
}

impl TabStatesView {
    /// Every tab untouched.
    pub open spec fn initial() -> TabStatesView {
        TabStatesView {
            all: ListStateView::initial(),
            messages: ListStateView::initial(),
            errors: ListStateView::initial(),
            system: ListStateView::initial(),
        }
    }

    /// The state saved for `tab`.
    pub open spec fn get(self, tab: TabType) -> ListStateView {
        match tab {
            TabType::All => self.all,
            TabType::Messages => self.messages,
            TabType::Errors => self.errors,
            TabType::System => self.system,
        }
    }

    /// These states with `state` saved for `tab`.
    pub open spec fn set(self, tab: TabType, state: ListStateView) -> TabStatesView {
        match tab {
            TabType::All => TabStatesView { all: state, ..self },
            TabType::Messages => TabStatesView { messages: state, ..self },
            TabType::Errors => TabStatesView { errors: state, ..self },
            TabType::System => TabStatesView { system: state, ..self },
        }
    }

    /// Every saved state shifted by `count` removed entries.
    pub open spec fn shifted(self, count: nat) -> TabStatesView {
        TabStatesView {
            all: self.all.shifted(count),
            messages: self.messages.shifted(count),
            errors: self.errors.shifted(count),
            system: self.system.shifted(count),
        }
    }
}

impl TabStates {
    /// Every tab untouched.
    pub fn initial() -> (s: TabStates)
        ensures
            s@ == TabStatesView::initial(),
    {
        TabStates {
            all: ListState::initial(),
            messages: ListState::initial(),
            errors: ListState::initial(),
            system: ListState::initial(),
        }
    }

    /// The state saved for `tab`.
    pub fn get(&self, tab: TabType) -> (s: ListState)
        ensures
            s == match tab {
                TabType::All => self.all,
                TabType::Messages => self.messages,
                TabType::Errors => self.errors,
                TabType::System => self.system,
            },
            s@ == self@.get(tab),
    {
        match tab {
            TabType::All => self.all,
            TabType::Messages => self.messages,
            TabType::Errors => self.errors,
            TabType::System => self.system,
        }
    }

    /// Saves `state` for `tab`.
    pub fn set(&mut self, tab: TabType, state: ListState)
        ensures
            final(self)@ == old(self)@.set(tab, state@),
    {
        match tab {
            TabType::All => self.all = state,
            TabType::Messages => self.messages = state,
            TabType::Errors => self.errors = state,
            TabType::System => self.system = state,
        }
    }

    /// Every saved state shifted by `count` removed entries.
    pub fn shifted(self, count: usize) -> (s: TabStates)
        ensures
            s@ == self@.shifted(count as nat),
    {
        TabStates {
            all: self.all.shifted(count),
            messages: self.messages.shifted(count),
            errors: self.errors.shifted(count),
            system: self.system.shifted(count),
        }
    }
}

} // verus!
