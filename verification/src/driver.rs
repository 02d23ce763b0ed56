//! What the monitor does with a key press and with a message from a proxy.

use vstd::prelude::*;
use crate::app::App;
use crate::messages::IpcMessage;
use crate::model::{AppEvent, AppView};
use crate::nav::{FocusArea, NavigationMode, TabType};

verus! {

/// The keys the monitor reacts to.
#[derive(Debug, Clone, Copy, PartialEq, Eq, Structural)]
pub enum KeyCode {
    Char(char),
    Esc,
    Enter,
    Backspace,
    Delete,
    Left,
    Right,
    Up,
    Down,
    PageUp,
    PageDown,
    Home,
    End,
    Tab,
    BackTab,
    Other,
}

/// A key press: the key and whether Control was held.
#[derive(Debug, Clone, Copy, PartialEq, Eq, Structural)]
pub struct KeyPress {
    pub code: KeyCode,
    pub ctrl: bool,
}

/// Whether the monitor goes on after a key press.
#[derive(Debug, Clone, Copy, PartialEq, Eq, Structural)]
pub enum Flow {
    Continue,
    Quit,
}

/// The detail view scrolls to this offset on End; the renderer clamps it.
pub const DETAIL_END_OFFSET: u16 = 1000;

/// A page key scrolls the detail view by this many scroll steps.
pub const DETAIL_PAGE_STEPS: usize = 10;

/// Which group of key bindings is in force.
#[derive(Debug, Clone, Copy, PartialEq, Eq, Structural)]
pub enum KeyContext {
    Help,
    Detail,
    Search,
    Main,
}

impl AppView {
    /// The bindings in force: an open overlay comes first, help before
    /// detail; then an open search; then the main view.
    pub open spec fn key_context(self) -> KeyContext {
        if self.show_help_dialog {
            KeyContext::Help
        } else if self.show_detail_view {
            KeyContext::Detail
        } else if self.navigation_mode == NavigationMode::Search {
            KeyContext::Search
        } else {
            KeyContext::Main
        }
    }

    /// The detail view scrolled up `steps` times.
    pub open spec fn detail_scrolled_up(self, steps: nat) -> AppView
        decreases steps,
    {
        if steps == 0 {
            self
        } else {
            self.detail_scrolled_up((steps - 1) as nat).detail_scroll_up()
        }
    }

    /// The detail view scrolled down `steps` times.
    pub open spec fn detail_scrolled_down(self, steps: nat) -> AppView
        decreases steps,
    {
        if steps == 0 {
            self
        } else {
            self.detail_scrolled_down((steps - 1) as nat).detail_scroll_down()
        }
    }

    /// The state after `key` while the help dialog is open.
    pub open spec fn after_help_key(self, key: KeyPress) -> AppView {
        match key.code {
            KeyCode::Esc | KeyCode::Char('?') => AppView { show_help_dialog: false, ..self },
            _ => self,
        }
    }

    /// The state after `key` while the detail view is open.
    pub open spec fn after_detail_key(self, key: KeyPress) -> AppView {
        match key.code {
            KeyCode::Esc => self.hide_detail_view(),
            KeyCode::Char('w') | KeyCode::Char('W') => self.toggle_word_wrap(),
            KeyCode::Up => self.detail_scroll_up(),
            KeyCode::Down => self.detail_scroll_down(),
            KeyCode::PageUp => self.detail_scrolled_up(DETAIL_PAGE_STEPS as nat),
            KeyCode::PageDown => self.detail_scrolled_down(DETAIL_PAGE_STEPS as nat),
            KeyCode::Home => AppView { detail_scroll_offset: 0, ..self },
            KeyCode::End => AppView { detail_scroll_offset: DETAIL_END_OFFSET, ..self },
            _ => self,
        }
    }

    /// The state after `key` while the search is open.
    pub open spec fn after_search_key(self, key: KeyPress) -> AppView {
        match key.code {
            KeyCode::Esc => self.exit_search_mode(),
            KeyCode::Char(c) => self.search_input_char(c),
            KeyCode::Backspace => self.search_backspace(),
            KeyCode::Delete => self.search_delete(),
            KeyCode::Left => self.search_cursor_left(),
            KeyCode::Right => self.search_cursor_right(),
            KeyCode::Home => self.search_cursor_home(),
            KeyCode::End => self.search_cursor_end(),
            KeyCode::Up => self.scroll_up(),
            KeyCode::Down => self.scroll_down(),
            KeyCode::PageUp => self.page_up(),
            KeyCode::PageDown => self.page_down(),
            KeyCode::Enter => self.confirm_search_results(),
            _ => self,
        }
    }

    /// Whether `key` quits the monitor from the main view.
    pub open spec fn is_quit_key(key: KeyPress) -> bool {
        key.code == KeyCode::Char('q') || (key.code == KeyCode::Char('c') && key.ctrl)
    }

    /// Whether `key` in the main view chooses the proxy under the cursor.
    pub open spec fn is_proxy_choice(self, key: KeyPress) -> bool {
        key.code == KeyCode::Enter && self.focus_area == FocusArea::ProxyList
    }

    /// The state after `key` in the main view, for every key but the choice
    /// of a proxy.
    pub open spec fn after_main_key(self, key: KeyPress) -> AppView {
        let in_logs = self.focus_area == FocusArea::LogView;
        match key.code {
            KeyCode::Char('q') => self,
            KeyCode::Char('c') => if key.ctrl {
                self
            } else {
                self.clear_logs()
            },
            KeyCode::Char('1') => self.switch_tab(TabType::All),
            KeyCode::Char('2') => self.switch_tab(TabType::Messages),
            KeyCode::Char('3') => self.switch_tab(TabType::Errors),
            KeyCode::Char('4') => self.switch_tab(TabType::System),
            KeyCode::Char('/') => if in_logs {
                self.enter_search_mode()
            } else {
                self
            },
            KeyCode::Char('?') => AppView { show_help_dialog: true, ..self },
            KeyCode::Left => self.switch_focus_to_proxy_list(),
            KeyCode::Right => self.switch_focus_to_logs(),
            KeyCode::Up => if in_logs {
                self.scroll_up()
            } else {
                self.proxy_scroll_up()
            },
            KeyCode::Down => if in_logs {
                self.scroll_down()
            } else {
                self.proxy_scroll_down()
            },
            KeyCode::PageUp => if in_logs {
                self.page_up()
            } else {
                self
            },
            KeyCode::PageDown => if in_logs {
                self.page_down()
            } else {
                self
            },
            KeyCode::Home => if in_logs {
                self.scroll_to_top()
            } else {
                self
            },
            KeyCode::End => if in_logs {
                self.scroll_to_bottom()
            } else {
                self
            },
            KeyCode::Esc => if in_logs {
                self.exit_navigation_mode()
            } else {
                self.clear_proxy_selection()
            },
            KeyCode::Tab => self.next_tab(),
            KeyCode::BackTab => self.prev_tab(),
            KeyCode::Enter => self.select_log_at_cursor().show_selected_log_detail(),
            _ => self,
        }
    }

    /// Whether `key` may lead from this state to `next` with `flow`.
    pub open spec fn key_step(self, key: KeyPress, next: AppView, flow: Flow) -> bool {
        match self.key_context() {
            KeyContext::Help => next == self.after_help_key(key) && flow == Flow::Continue,
            KeyContext::Detail => next == self.after_detail_key(key) && flow == Flow::Continue,
            KeyContext::Search => next == self.after_search_key(key) && flow == Flow::Continue,
            KeyContext::Main => if Self::is_quit_key(key) {
                next == self && flow == Flow::Quit
            } else if self.is_proxy_choice(key) {
                self.select_current_proxy(next) && flow == Flow::Continue
            } else {
                next == self.after_main_key(key) && flow == Flow::Continue
            },
        }
    }
}

/// The event that a message from a proxy is for the monitor, if it is one:
/// a started proxy connects, a stopped one disconnects, log entries and
/// counters pass through, and every other message is ignored.
pub open spec fn event_of(message: IpcMessage) -> Option<AppEvent> {
    match message {
        IpcMessage::ProxyStarted(info) => Some(AppEvent::ProxyConnected(info)),
        IpcMessage::ProxyStopped(id) => Some(AppEvent::ProxyDisconnected(id)),
        IpcMessage::LogEntry(entry) => Some(AppEvent::NewLogEntry(entry)),
        IpcMessage::StatsUpdate(stats) => Some(AppEvent::StatsUpdate(stats)),
        _ => None,
    }
}

/// The event that a message from a proxy is for the monitor, if it is one.
pub fn event_for(message: IpcMessage) -> (event: Option<AppEvent>)
    ensures
        event == event_of(message),
{
    match message {
        IpcMessage::ProxyStarted(info) => Some(AppEvent::ProxyConnected(info)),
        IpcMessage::ProxyStopped(id) => Some(AppEvent::ProxyDisconnected(id)),
        IpcMessage::LogEntry(entry) => Some(AppEvent::NewLogEntry(entry)),
        IpcMessage::StatsUpdate(stats) => Some(AppEvent::StatsUpdate(stats)),
        _ => None,
    }
}

fn help_key(app: &mut App, key: KeyPress)
    requires
        old(app)@.wf(),
    ensures
        final(app)@ == old(app)@.after_help_key(key),
        final(app)@.wf(),
{
    match key.code {
        KeyCode::Esc => {
            app.show_help_dialog = false;
        },
        KeyCode::Char(c) => {
            if c == '?' {
                app.show_help_dialog = false;
            }
        },
        _ => {},
    }
    assert(app@ =~= old(app)@.after_help_key(key));
}

fn detail_key(app: &mut App, key: KeyPress)
    requires
        old(app)@.wf(),
    ensures
        final(app)@ == old(app)@.after_detail_key(key),
        final(app)@.wf(),
{
    match key.code {
        KeyCode::Esc => app.hide_detail_view(),
        KeyCode::Char(c) => {
            if c == 'w' || c == 'W' {
                app.toggle_word_wrap();
            }
        },
        KeyCode::Up => app.detail_scroll_up(),
        KeyCode::Down => app.detail_scroll_down(),
        KeyCode::PageUp => {
            let mut n: usize = 0;
            while n < DETAIL_PAGE_STEPS
                invariant
                    n <= DETAIL_PAGE_STEPS,
                    app@ == old(app)@.detail_scrolled_up(n as nat),
                    app@.wf(),
                decreases DETAIL_PAGE_STEPS - n,
            {
                app.detail_scroll_up();
                n = n + 1;
            }
        },
        KeyCode::PageDown => {
            let mut n: usize = 0;
            while n < DETAIL_PAGE_STEPS
                invariant
                    n <= DETAIL_PAGE_STEPS,
                    app@ == old(app)@.detail_scrolled_down(n as nat),
                    app@.wf(),
                decreases DETAIL_PAGE_STEPS - n,
            {
                app.detail_scroll_down();
                n = n + 1;
            }
        },
        KeyCode::Home => {
            app.detail_scroll_offset = 0;
            assert(app@ =~= old(app)@.after_detail_key(key));
        },
        KeyCode::End => {
            app.detail_scroll_offset = DETAIL_END_OFFSET;
            assert(app@ =~= old(app)@.after_detail_key(key));
        },
        _ => {},
    }
}

fn search_key(app: &mut App, key: KeyPress)
    requires
        old(app)@.wf(),
    ensures
        final(app)@ == old(app)@.after_search_key(key),
        final(app)@.wf(),
{
    match key.code {
        KeyCode::Esc => app.exit_search_mode(),
        KeyCode::Char(c) => app.search_input_char(c),
        KeyCode::Backspace => app.search_backspace(),
        KeyCode::Delete => app.search_delete(),
        KeyCode::Left => app.search_cursor_left(),
        KeyCode::Right => app.search_cursor_right(),
        KeyCode::Home => app.search_cursor_home(),
        KeyCode::End => app.search_cursor_end(),
        KeyCode::Up => app.scroll_up(),
        KeyCode::Down => app.scroll_down(),
        KeyCode::PageUp => app.page_up(),
        KeyCode::PageDown => app.page_down(),
        KeyCode::Enter => app.confirm_search_results(),
        _ => {},
    }
}

fn main_char_key(app: &mut App, c: char, ctrl: bool)
    requires
        old(app)@.wf(),
        !AppView::is_quit_key(KeyPress { code: KeyCode::Char(c), ctrl }),
    ensures
        final(app)@ == old(app)@.after_main_key(KeyPress { code: KeyCode::Char(c), ctrl }),
        final(app)@.wf(),
{
    if c == 'c' {
        app.clear_logs();
    } else if c == 'r' {
        app.refresh();
    } else if c == '1' {
        app.switch_tab(TabType::All);
    } else if c == '2' {
        app.switch_tab(TabType::Messages);
    } else if c == '3' {
        app.switch_tab(TabType::Errors);
    } else if c == '4' {
        app.switch_tab(TabType::System);
    } else if c == '/' {
        if app.focus_area == FocusArea::LogView {
            app.enter_search_mode();
        }
    } else if c == '?' {
        app.show_help_dialog = true;
        assert(app@ =~= AppView { show_help_dialog: true, ..old(app)@ });
    }
}

fn main_key(app: &mut App, key: KeyPress)
    requires
        old(app)@.wf(),
        !AppView::is_quit_key(key),
    ensures
        old(app)@.is_proxy_choice(key) ==> old(app)@.select_current_proxy(final(app)@),
        !old(app)@.is_proxy_choice(key) ==> final(app)@ == old(app)@.after_main_key(key),
        final(app)@.wf(),
{
    let in_logs = app.focus_area == FocusArea::LogView;
    match key.code {
        KeyCode::Char(c) => main_char_key(app, c, key.ctrl),
        KeyCode::Left => app.switch_focus_to_proxy_list(),
        KeyCode::Right => app.switch_focus_to_logs(),
        KeyCode::Up => if in_logs {
            app.scroll_up()
        } else {
            app.proxy_scroll_up()
        },
        KeyCode::Down => if in_logs {
            app.scroll_down()
        } else {
            app.proxy_scroll_down()
        },
        KeyCode::PageUp => if in_logs {
            app.page_up()
        },
        KeyCode::PageDown => if in_logs {
            app.page_down()
        },
        KeyCode::Home => if in_logs {
            app.scroll_to_top()
        },
        KeyCode::End => if in_logs {
            app.scroll_to_bottom()
        },
        KeyCode::Esc => if in_logs {
            app.exit_navigation_mode()
        } else {
            app.clear_proxy_selection()
        },
        KeyCode::Tab => app.next_tab(),
        KeyCode::BackTab => app.prev_tab(),
        KeyCode::Enter => if in_logs {
            app.select_log_at_cursor();
            app.show_selected_log_detail();
        } else {
            app.select_current_proxy();
        },
        _ => {},
    }
}

/// Applies one key press: to the help dialog if it is open, else to the
/// detail view if it is open, else to the search if it is open, else to the
/// main view.
pub fn dispatch_key(app: &mut App, key: KeyPress) -> (flow: Flow)
    requires
        old(app)@.wf(),
    ensures
        old(app)@.key_step(key, final(app)@, flow),
        final(app)@.wf(),
{
    if app.show_help_dialog {
        help_key(app, key);
        Flow::Continue
    } else if app.show_detail_view {
        detail_key(app, key);
        Flow::Continue
    } else if app.navigation_mode == NavigationMode::Search {
        search_key(app, key);
        Flow::Continue
    } else {
        let quits = match key.code {
            KeyCode::Char(c) => c == 'q' || (c == 'c' && key.ctrl),
            _ => false,
        };
        if quits {
            Flow::Quit
        } else {
            main_key(app, key);
            Flow::Continue
        }
    }
}

} // verus!
