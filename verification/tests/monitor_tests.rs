use mcp_trace::{
    App, AppEvent, ListState, LogEntry, LogLevel, NavigationMode, ProxyId, ProxyInfo, ProxyStats,
    ProxyStatus, TabType, MAX_LOGS,
};

fn entry(level: LogLevel, message: &str, proxy: ProxyId) -> AppEvent {
    AppEvent::NewLogEntry(LogEntry::new(level, message.to_string(), proxy))
}

fn proxy(id: ProxyId, name: &str) -> AppEvent {
    AppEvent::ProxyConnected(ProxyInfo {
        id,
        name: name.to_string(),
        listen_address: "stdio".to_string(),
        target_command: vec!["cat".to_string()],
        status: ProxyStatus::Running,
        stats: ProxyStats::for_proxy(id),
    })
}

fn messages(logs: Vec<&LogEntry>) -> Vec<String> {
    logs.iter().map(|l| l.message.clone()).collect()
}

#[test]
fn cap_enforcement_keeps_the_most_recent() {
    let mut app = App::new();
    app.switch_tab(TabType::All);
    let id = ProxyId::new();
    for i in 0..10_005 {
        app.handle_event(entry(LogLevel::Info, &format!("Log {}", i), id));
    }
    assert_eq!(MAX_LOGS, 10_000);
    assert_eq!(app.logs.len(), 10_000);
    assert_eq!(app.logs[0].message, "Log 5");
    assert_eq!(app.logs[9_999].message, "Log 10004");
    assert_eq!(app.navigation_mode, NavigationMode::Follow);
    assert_eq!(app.selected_index, 9_999);
}

#[test]
fn tab_filter_counts() {
    let mut app = App::new();
    let id = ProxyId::new();
    for level in [
        LogLevel::Request,
        LogLevel::Response,
        LogLevel::Error,
        LogLevel::Warning,
        LogLevel::Info,
        LogLevel::Debug,
    ] {
        app.handle_event(entry(level, "x", id));
    }
    assert_eq!(app.get_tab_log_count(TabType::All), 6);
    assert_eq!(app.get_tab_log_count(TabType::Messages), 2);
    assert_eq!(app.get_tab_log_count(TabType::Errors), 2);
    assert_eq!(app.get_tab_log_count(TabType::System), 2);
}

#[test]
fn tab_membership_of_every_level() {
    let levels = [
        LogLevel::Debug,
        LogLevel::Info,
        LogLevel::Warning,
        LogLevel::Error,
        LogLevel::Request,
        LogLevel::Response,
    ];
    for level in levels {
        assert!(TabType::All.shows(level));
        let messages = level == LogLevel::Request || level == LogLevel::Response;
        let errors = level == LogLevel::Error || level == LogLevel::Warning;
        let system = level == LogLevel::Info || level == LogLevel::Debug;
        assert_eq!(TabType::Messages.shows(level), messages);
        assert_eq!(TabType::Errors.shows(level), errors);
        assert_eq!(TabType::System.shows(level), system);
    }
}

#[test]
fn filtered_view_keeps_insertion_order() {
    let mut app = App::new();
    let a = ProxyId(1);
    let b = ProxyId(2);
    app.handle_event(entry(LogLevel::Request, "a-req", a));
    app.handle_event(entry(LogLevel::Info, "a-info", a));
    app.handle_event(entry(LogLevel::Response, "b-resp", b));
    app.handle_event(entry(LogLevel::Request, "b-req", b));
    app.handle_event(entry(LogLevel::Response, "a-resp", a));
    assert_eq!(messages(app.get_filtered_logs()), vec!["a-req", "b-resp", "b-req", "a-resp"]);
    app.selected_proxy = Some(a);
    assert_eq!(messages(app.get_filtered_logs()), vec!["a-req", "a-resp"]);
    app.switch_tab(TabType::System);
    assert_eq!(messages(app.get_filtered_logs()), vec!["a-info"]);
    app.selected_proxy = Some(ProxyId(3));
    assert!(app.get_filtered_logs().is_empty());
}

#[test]
fn search_substring() {
    let mut app = App::new();
    app.switch_tab(TabType::All);
    let id = ProxyId::new();
    for message in [
        "User login successful",
        "Database connection established",
        "Error: User not found",
        "Processing user request",
        "Login attempt failed",
    ] {
        app.handle_event(entry(LogLevel::Info, message, id));
    }
    app.enter_search_mode();
    for c in "user".chars() {
        app.search_input_char(c);
    }
    assert_eq!(app.search_results.len(), 3);
    assert_eq!(app.search_results, vec![0, 2, 3]);
    app.exit_search_mode();
    assert_eq!(app.search_query, "");
    assert!(app.search_results.is_empty());
}

#[test]
fn search_folds_case_of_query_and_text() {
    let mut app = App::new();
    app.switch_tab(TabType::All);
    let id = ProxyId::new();
    app.handle_event(entry(LogLevel::Debug, "user login", id));
    app.handle_event(entry(LogLevel::Debug, "nothing here", id));
    app.handle_event(entry(LogLevel::Debug, "SUPERUSER", id));
    app.enter_search_mode();
    for c in "USER".chars() {
        app.search_input_char(c);
    }
    assert_eq!(app.search_results, vec![0, 2]);
}

#[test]
fn search_matches_proxy_name_and_level() {
    let mut app = App::new();
    app.switch_tab(TabType::All);
    let known = ProxyId(7);
    let unknown = ProxyId(8);
    app.handle_event(proxy(known, "Gateway"));
    app.handle_event(entry(LogLevel::Request, "alpha", known));
    app.handle_event(entry(LogLevel::Warning, "beta", unknown));
    app.handle_event(entry(LogLevel::Error, "gateway down", unknown));

    app.enter_search_mode();
    for c in "gate".chars() {
        app.search_input_char(c);
    }
    assert_eq!(app.search_results, vec![0, 2]);

    app.enter_search_mode();
    for c in "warn".chars() {
        app.search_input_char(c);
    }
    assert_eq!(app.search_results, vec![1]);
}

#[test]
fn search_respects_tab_and_proxy_filter() {
    let mut app = App::new();
    let a = ProxyId(1);
    let b = ProxyId(2);
    app.handle_event(entry(LogLevel::Request, "ping one", a));
    app.handle_event(entry(LogLevel::Info, "ping two", a));
    app.handle_event(entry(LogLevel::Response, "ping three", b));
    // Messages tab is active: the Info entry is outside it.
    app.enter_search_mode();
    for c in "ping".chars() {
        app.search_input_char(c);
    }
    assert_eq!(app.search_results, vec![0, 2]);
    app.exit_search_mode();
    app.selected_proxy = Some(b);
    app.enter_search_mode();
    for c in "ping".chars() {
        app.search_input_char(c);
    }
    assert_eq!(app.search_results, vec![2]);
    assert_eq!(messages(app.get_search_filtered_logs()), vec!["ping three"]);
}

#[test]
fn empty_query_has_no_results() {
    let mut app = App::new();
    app.switch_tab(TabType::All);
    app.handle_event(entry(LogLevel::Info, "abc", ProxyId(1)));
    app.handle_event(entry(LogLevel::Info, "xyz", ProxyId(1)));
    app.enter_search_mode();
    app.search_input_char('x');
    assert_eq!(app.search_results, vec![1]);
    assert_eq!(messages(app.get_search_filtered_logs()), vec!["xyz"]);
    app.search_backspace();
    assert_eq!(app.search_query, "");
    assert!(app.search_results.is_empty());
    // Without a query the list shows the filtered entries.
    assert_eq!(messages(app.get_search_filtered_logs()), vec!["abc", "xyz"]);
}

#[test]
fn a_query_without_hits_shows_nothing() {
    let mut app = App::new();
    app.switch_tab(TabType::All);
    app.handle_event(entry(LogLevel::Info, "abc", ProxyId(1)));
    app.enter_search_mode();
    assert_eq!(app.get_search_filtered_logs().len(), 1);
    app.search_input_char('q');
    assert!(app.search_results.is_empty());
    assert!(app.get_search_filtered_logs().is_empty());
    app.scroll_down();
    assert_eq!(app.selected_index, 0);
}

#[test]
fn search_query_editing_by_characters() {
    let mut app = App::new();
    app.enter_search_mode();
    for c in "ac".chars() {
        app.search_input_char(c);
    }
    app.search_cursor_left();
    app.search_input_char('b');
    assert_eq!(app.search_query, "abc");
    assert_eq!(app.search_cursor, 2);
    app.search_cursor_home();
    app.search_delete();
    assert_eq!(app.search_query, "bc");
    assert_eq!(app.search_cursor, 0);
    app.search_backspace();
    assert_eq!(app.search_query, "bc");
    app.search_cursor_end();
    assert_eq!(app.search_cursor, 2);
    app.search_delete();
    assert_eq!(app.search_query, "bc");
    app.search_cursor_right();
    assert_eq!(app.search_cursor, 2);
    app.search_backspace();
    assert_eq!(app.search_query, "b");
    assert_eq!(app.search_cursor, 1);
}

#[test]
fn search_query_takes_characters_beyond_ascii() {
    let mut app = App::new();
    app.enter_search_mode();
    for c in "é🌍x".chars() {
        app.search_input_char(c);
    }
    assert_eq!(app.search_query, "é🌍x");
    assert_eq!(app.search_cursor, 3);
    app.search_cursor_left();
    app.search_backspace();
    assert_eq!(app.search_query, "éx");
    assert_eq!(app.search_cursor, 1);
}

#[test]
fn editing_keys_do_nothing_outside_search() {
    let mut app = App::new();
    app.search_input_char('a');
    app.search_backspace();
    app.search_delete();
    app.search_cursor_right();
    app.search_cursor_end();
    assert_eq!(app.search_query, "");
    assert_eq!(app.search_cursor, 0);
    assert_eq!(app.navigation_mode, NavigationMode::Follow);
}

#[test]
fn follow_selects_the_last_filtered_entry() {
    let mut app = App::new();
    let id = ProxyId(1);
    app.handle_event(entry(LogLevel::Request, "one", id));
    assert_eq!(app.selected_index, 0);
    app.handle_event(entry(LogLevel::Info, "hidden", id));
    assert_eq!(app.selected_index, 0);
    app.handle_event(entry(LogLevel::Response, "two", id));
    assert_eq!(app.selected_index, 1);
    assert_eq!(app.get_filtered_logs().len(), 2);
}

#[test]
fn follow_leaves_the_selection_when_nothing_is_visible() {
    let mut app = App::new();
    app.selected_index = 4;
    app.handle_event(entry(LogLevel::Info, "not on the Messages tab", ProxyId(1)));
    assert!(app.get_filtered_logs().is_empty());
    assert_eq!(app.selected_index, 4);
}

#[test]
fn new_entries_do_not_move_the_selection_during_search() {
    let mut app = App::new();
    app.switch_tab(TabType::All);
    let id = ProxyId(1);
    for i in 0..5 {
        app.handle_event(entry(LogLevel::Info, &format!("item {}", i), id));
    }
    app.enter_search_mode();
    for c in "item".chars() {
        app.search_input_char(c);
    }
    assert_eq!(app.selected_index, 0);
    app.handle_event(entry(LogLevel::Info, "item 5", id));
    assert_eq!(app.selected_index, 0);
    assert_eq!(app.search_results.len(), 5);
    app.confirm_search_results();
    app.handle_event(entry(LogLevel::Info, "item 6", id));
    assert_eq!(app.selected_index, 0);
    assert_eq!(app.navigation_mode, NavigationMode::SearchResults);
}

#[test]
fn tab_state_isolation() {
    let mut app = App::new();
    let id = ProxyId(1);
    for i in 0..20 {
        app.handle_event(entry(LogLevel::Request, &format!("req {}", i), id));
        app.handle_event(entry(LogLevel::Error, &format!("err {}", i), id));
    }
    app.switch_tab(TabType::Messages);
    app.scroll_to_top();
    for _ in 0..7 {
        app.scroll_down();
    }
    app.viewport_offset = 3;
    app.switch_tab(TabType::Errors);
    assert_eq!(app.selected_index, 0);
    assert_eq!(app.navigation_mode, NavigationMode::Follow);
    app.switch_tab(TabType::Messages);
    assert_eq!(app.selected_index, 7);
    assert_eq!(app.viewport_offset, 3);
    assert_eq!(app.navigation_mode, NavigationMode::Navigate);
}

#[test]
fn switching_tabs_clamps_the_selection() {
    let mut app = App::new();
    let id = ProxyId(1);
    for i in 0..3 {
        app.handle_event(entry(LogLevel::Error, &format!("err {}", i), id));
    }
    app.tab_states.errors =
        ListState { selected_index: 50, viewport_offset: 9, navigation_mode: NavigationMode::Navigate };
    app.switch_tab(TabType::Errors);
    assert_eq!(app.selected_index, 2);
    assert_eq!(app.viewport_offset, 9);
    app.tab_states.system =
        ListState { selected_index: 50, viewport_offset: 9, navigation_mode: NavigationMode::Navigate };
    app.switch_tab(TabType::System);
    assert_eq!(app.selected_index, 0);
    assert_eq!(app.viewport_offset, 0);
}

#[test]
fn eviction_moves_saved_tab_positions() {
    let mut app = App::new();
    app.switch_tab(TabType::All);
    let id = ProxyId(1);
    for i in 0..10_000 {
        app.handle_event(entry(LogLevel::Info, &format!("Log {}", i), id));
    }
    app.tab_states.messages =
        ListState { selected_index: 5, viewport_offset: 2, navigation_mode: NavigationMode::Navigate };
    app.tab_states.errors =
        ListState { selected_index: 0, viewport_offset: 0, navigation_mode: NavigationMode::Follow };
    app.handle_event(entry(LogLevel::Info, "one more", id));
    assert_eq!(app.logs.len(), 10_000);
    assert_eq!(app.tab_states.messages.selected_index, 4);
    assert_eq!(app.tab_states.messages.viewport_offset, 1);
    assert_eq!(app.tab_states.errors.selected_index, 0);
    assert_eq!(app.tab_states.errors.viewport_offset, 0);
}

#[test]
fn page_keys_move_by_ten_within_bounds() {
    let mut app = App::new();
    app.switch_tab(TabType::All);
    let id = ProxyId(1);
    for i in 0..30 {
        app.handle_event(entry(LogLevel::Info, &format!("{}", i), id));
    }
    app.selected_index = 2;
    app.page_down();
    assert_eq!(app.selected_index, 12);
    assert_eq!(app.navigation_mode, NavigationMode::Navigate);
    app.page_down();
    app.page_down();
    assert_eq!(app.selected_index, 29);
    app.page_up();
    assert_eq!(app.selected_index, 19);
    app.selected_index = 4;
    app.page_up();
    assert_eq!(app.selected_index, 0);
    assert_eq!(app.tab_states.all.selected_index, 0);
}

#[test]
fn escape_returns_to_follow_at_the_last_entry() {
    let mut app = App::new();
    app.switch_tab(TabType::All);
    let id = ProxyId(1);
    for i in 0..5 {
        app.handle_event(entry(LogLevel::Info, &format!("{}", i), id));
    }
    app.scroll_up();
    app.scroll_up();
    assert_eq!(app.selected_index, 2);
    app.exit_navigation_mode();
    assert_eq!(app.navigation_mode, NavigationMode::Follow);
    assert_eq!(app.selected_index, 4);
}

#[test]
fn viewport_follows_the_selection() {
    let mut app = App::new();
    app.switch_tab(TabType::All);
    let id = ProxyId(1);
    for i in 0..50 {
        app.handle_event(entry(LogLevel::Info, &format!("{}", i), id));
    }
    // Selection below the viewport.
    app.selected_index = 30;
    app.viewport_offset = 0;
    app.prepare_viewport(10);
    assert_eq!(app.viewport_offset, 21);
    // Selection above the viewport.
    app.selected_index = 5;
    app.prepare_viewport(10);
    assert_eq!(app.viewport_offset, 5);
    // Selection inside the viewport.
    app.selected_index = 9;
    app.prepare_viewport(10);
    assert_eq!(app.viewport_offset, 5);
    // Selection beyond the list.
    app.selected_index = 500;
    app.prepare_viewport(10);
    assert_eq!(app.selected_index, 49);
    assert_eq!(app.viewport_offset, 40);
    // No rows: the offset is only clamped.
    app.viewport_offset = 77;
    app.prepare_viewport(0);
    assert_eq!(app.viewport_offset, 49);
    assert_eq!(messages(app.get_visible_logs(3)), vec!["49"]);
    app.viewport_offset = 10;
    assert_eq!(messages(app.get_visible_logs(3)), vec!["10", "11", "12"]);
    assert!(app.get_visible_logs(0).is_empty());
    app.selected_index = 11;
    assert_eq!(app.get_relative_selection(3), Some(1));
    app.selected_index = 13;
    assert_eq!(app.get_relative_selection(3), None);
    app.selected_index = 9;
    assert_eq!(app.get_relative_selection(3), None);
}

#[test]
fn viewport_of_an_empty_list() {
    let mut app = App::new();
    app.selected_index = 3;
    app.viewport_offset = 2;
    app.prepare_viewport(10);
    assert_eq!(app.selected_index, 0);
    assert_eq!(app.viewport_offset, 0);
    assert!(app.get_visible_logs(10).is_empty());
    assert_eq!(app.get_relative_selection(10), None);
}

#[test]
fn proxy_disconnect_clears_filter() {
    let mut app = App::new();
    let p = ProxyId::new();
    let q = ProxyId::new();
    app.handle_event(proxy(p, "P"));
    app.handle_event(proxy(q, "Q"));
    app.selected_proxy = Some(p);
    app.handle_event(AppEvent::ProxyDisconnected(q));
    assert_eq!(app.selected_proxy, Some(p));
    app.handle_event(AppEvent::ProxyDisconnected(p));
    assert_eq!(app.selected_proxy, None);
    assert!(!app.proxies.contains_key(&p.0));
    assert!(app.proxies.is_empty());
}

#[test]
fn stats_of_unknown_proxy_are_ignored() {
    let mut app = App::new();
    let known = ProxyId(1);
    app.handle_event(proxy(known, "known"));
    let mut stats = ProxyStats::for_proxy(ProxyId(2));
    stats.total_requests = 9;
    app.handle_event(AppEvent::StatsUpdate(stats));
    assert_eq!(app.proxies.len(), 1);
    assert_eq!(app.proxies[&1].stats.total_requests, 0);
    let mut stats = ProxyStats::for_proxy(known);
    stats.total_requests = 9;
    app.handle_event(AppEvent::StatsUpdate(stats));
    assert_eq!(app.proxies[&1].stats.total_requests, 9);
    assert_eq!(app.proxies[&1].name, "known");
}

#[test]
fn reconnecting_proxy_replaces_its_entry() {
    let mut app = App::new();
    app.handle_event(proxy(ProxyId(1), "first"));
    app.handle_event(proxy(ProxyId(1), "second"));
    assert_eq!(app.proxies.len(), 1);
    assert_eq!(app.proxies[&1].name, "second");
}

#[test]
fn proxy_list_is_sorted_by_name() {
    let mut app = App::new();
    app.handle_event(proxy(ProxyId(1), "delta"));
    app.handle_event(proxy(ProxyId(2), "Alpha"));
    app.handle_event(proxy(ProxyId(3), "charlie"));
    app.handle_event(proxy(ProxyId(4), "alpha"));
    app.handle_event(proxy(ProxyId(5), "bravo"));
    let names: Vec<String> = app.get_proxy_list().iter().map(|p| p.name.clone()).collect();
    assert_eq!(names, vec!["Alpha", "alpha", "bravo", "charlie", "delta"]);
}

#[test]
fn selecting_a_proxy_filters_and_follows() {
    let mut app = App::new();
    app.handle_event(proxy(ProxyId(1), "zeta"));
    app.handle_event(proxy(ProxyId(2), "eta"));
    for i in 0..4 {
        app.handle_event(entry(LogLevel::Request, &format!("z{}", i), ProxyId(1)));
    }
    app.handle_event(entry(LogLevel::Request, "e0", ProxyId(2)));
    app.scroll_up();
    app.proxy_scroll_down();
    assert_eq!(app.proxy_selected_index, 1);
    app.proxy_scroll_down();
    assert_eq!(app.proxy_selected_index, 1);
    app.select_current_proxy();
    assert_eq!(app.selected_proxy, Some(ProxyId(1)));
    assert_eq!(app.navigation_mode, NavigationMode::Follow);
    assert_eq!(app.selected_index, 3);
    assert_eq!(app.viewport_offset, 0);
    app.proxy_selected_index = 9;
    app.select_current_proxy();
    assert_eq!(app.selected_proxy, Some(ProxyId(1)));
    app.clear_proxy_selection();
    assert_eq!(app.selected_proxy, None);
    assert_eq!(app.selected_index, 4);
}

#[test]
fn detail_view_opens_only_for_requests_and_responses() {
    let mut app = App::new();
    app.switch_tab(TabType::All);
    let id = ProxyId(1);
    app.handle_event(entry(LogLevel::Info, "info", id));
    app.select_log_at_cursor();
    assert_eq!(app.selected_log_index, Some(0));
    app.show_selected_log_detail();
    assert!(!app.show_detail_view);
    app.handle_event(entry(LogLevel::Response, "resp", id));
    app.select_log_at_cursor();
    assert_eq!(app.selected_log_index, Some(1));
    assert_eq!(app.get_selected_log().unwrap().message, "resp");
    app.show_selected_log_detail();
    assert!(app.show_detail_view);
}

#[test]
fn cursor_selects_the_entry_behind_the_filter() {
    let mut app = App::new();
    let id = ProxyId(1);
    app.handle_event(entry(LogLevel::Info, "i0", id));
    app.handle_event(entry(LogLevel::Request, "r1", id));
    app.handle_event(entry(LogLevel::Info, "i2", id));
    app.handle_event(entry(LogLevel::Response, "r3", id));
    app.select_log_at_cursor();
    assert_eq!(app.selected_log_index, Some(3));
    app.scroll_up();
    app.select_log_at_cursor();
    assert_eq!(app.selected_log_index, Some(1));
    app.selected_index = 2;
    app.selected_log_index = None;
    app.select_log_at_cursor();
    assert_eq!(app.selected_log_index, None);
}

#[test]
fn detail_scroll_saturates() {
    let mut app = App::new();
    app.detail_scroll_offset = 2;
    app.detail_scroll_up();
    assert_eq!(app.detail_scroll_offset, 0);
    app.detail_scroll_down();
    assert_eq!(app.detail_scroll_offset, 3);
    app.detail_scroll_offset = u16::MAX - 1;
    app.detail_scroll_down();
    assert_eq!(app.detail_scroll_offset, u16::MAX);
    app.toggle_word_wrap();
    assert_eq!(app.detail_scroll_offset, 0);
}

#[test]
fn stale_search_results_are_skipped() {
    let mut app = App::new();
    app.switch_tab(TabType::All);
    let id = ProxyId(1);
    app.handle_event(entry(LogLevel::Info, "a0", id));
    app.handle_event(entry(LogLevel::Info, "a1", id));
    app.navigation_mode = NavigationMode::SearchResults;
    app.search_query = "a".to_string();
    app.search_results = vec![1, 7, 0];
    assert_eq!(messages(app.get_search_filtered_logs()), vec!["a1", "a0"]);
}

#[test]
fn totals_that_do_not_fit_are_refused() {
    let mut app = App::new();
    assert_eq!(app.checked_total_stats().unwrap().total_requests, 0);
    for (id, requests, connections) in [(1u128, u64::MAX - 1, 7u32), (2, 1, 8)] {
        let mut stats = ProxyStats::for_proxy(ProxyId(id));
        stats.total_requests = requests;
        stats.active_connections = connections;
        stats.bytes_transferred = 10;
        app.handle_event(AppEvent::ProxyConnected(ProxyInfo {
            id: ProxyId(id),
            name: format!("p{}", id),
            listen_address: "stdio".to_string(),
            target_command: vec![],
            status: ProxyStatus::Running,
            stats,
        }));
    }
    let total = app.checked_total_stats().unwrap();
    assert_eq!(total.total_requests, u64::MAX);
    assert_eq!(total.active_connections, 15);
    assert_eq!(total.bytes_transferred, 20);
    assert_eq!(total.uptime.as_secs(), 0);
    assert_eq!(app.total_stats().total_requests, u64::MAX);

    let mut stats = ProxyStats::for_proxy(ProxyId(3));
    stats.total_requests = 1;
    app.handle_event(AppEvent::StatsUpdate(ProxyStats::for_proxy(ProxyId(3))));
    app.handle_event(proxy(ProxyId(3), "p3"));
    app.handle_event(AppEvent::StatsUpdate(stats));
    assert!(app.checked_total_stats().is_none());

    let mut stats = ProxyStats::for_proxy(ProxyId(3));
    stats.active_connections = u32::MAX;
    app.handle_event(AppEvent::StatsUpdate(stats));
    assert!(app.checked_total_stats().is_none());
}

#[test]
fn cursor_within_the_query() {
    let mut app = App::new();
    assert!(app.cursor_in_query());
    app.enter_search_mode();
    app.search_input_char('é');
    assert!(app.cursor_in_query());
    app.search_cursor = 2;
    assert!(!app.cursor_in_query());
}
