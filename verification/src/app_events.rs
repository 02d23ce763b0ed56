//! What the monitor does with the events that proxies deliver.

use vstd::prelude::*;
use crate::app::App;
use crate::model::{AppEvent, AppView, MAX_LOGS};
use crate::nav::NavigationMode;
use crate::types::{LogEntry, ProxyId, ProxyInfo, ProxyStats};

verus! {

broadcast use vstd::std_specs::hash::group_hash_axioms;

impl App {
    /// Applies one event from a proxy. After a log entry the log is within
    /// its cap, whatever its length was before.
    pub fn handle_event(&mut self, event: AppEvent)
        ensures
            final(self)@ == old(self)@.handle_event(event),
            event is NewLogEntry ==> 0 < final(self).logs.len() <= MAX_LOGS,
            old(self)@.wf() ==> final(self)@.wf(),
    {
        match event {
            AppEvent::ProxyConnected(info) => self.connect_proxy(info),
            AppEvent::ProxyDisconnected(id) => self.disconnect_proxy(id),
            AppEvent::NewLogEntry(entry) => self.append_log(entry),
            AppEvent::StatsUpdate(stats) => self.update_stats(stats),
        }
    }

    /// Registers a proxy under its identifier, replacing an earlier one.
    pub(crate) fn connect_proxy(&mut self, info: ProxyInfo)
        ensures
            final(self)@ == old(self)@.proxy_connected(info),
    {
        let key = info.id.0;
        self.proxies.insert(key, info);
        assert(self@ =~= old(self)@.proxy_connected(info));
    }

    /// Forgets a proxy and clears a filter on it.
    pub(crate) fn disconnect_proxy(&mut self, id: ProxyId)
        ensures
            final(self)@ == old(self)@.proxy_disconnected(id),
    {
        let key = id.0;
        self.proxies.remove(&key);
        match self.selected_proxy {
            Some(selected) => {
                if selected == id {
                    self.selected_proxy = None;
                }
            },
            None => {},
        }
        assert(self@ =~= old(self)@.proxy_disconnected(id));
    }

    /// Replaces the counters of a known proxy; ignores an unknown one.
    pub(crate) fn update_stats(&mut self, stats: ProxyStats)
        ensures
            final(self)@ == old(self)@.stats_updated(stats),
    {
        let key = stats.proxy_id.0;
        match self.proxies.remove(&key) {
            Some(info) => {
                let mut info = info;
                info.stats = stats;
                self.proxies.insert(key, info);
                assert(self@ =~= old(self)@.stats_updated(stats));
            },
            None => {
                assert(self@ =~= old(self)@.stats_updated(stats));
            },
        }
    }

    /// Appends an entry, evicts the oldest entries beyond the cap, and lets
    /// a following list snap to its last entry.
    pub(crate) fn append_log(&mut self, entry: LogEntry)
        ensures
            final(self)@ == old(self)@.log_appended(entry),
            final(self).logs.len() <= MAX_LOGS,
    {
        let ghost excess = old(self)@.eviction_count();
        self.logs.push(entry);
        if self.logs.len() > MAX_LOGS {
            let count = self.logs.len() - MAX_LOGS;
            let kept = self.logs.split_off(count);
            self.logs = kept;
            self.tab_states = self.tab_states.shifted(count);
        }
        assert(self.logs@ =~= old(self).logs@.push(entry).skip(excess as int));
        assert(self.tab_states@ =~= old(self).tab_states@.shifted(excess));
        let ghost s = AppView {
            logs: old(self).logs@.push(entry).skip(excess as int),
            tab_states: old(self).tab_states@.shifted(excess),
            ..old(self)@
        };
        assert(self@ =~= s);
        if self.navigation_mode == NavigationMode::Follow {
            let count = self.get_search_filtered_logs().len();
            if count > 0 {
                self.selected_index = count - 1;
            }
        }
        assert(self@ =~= old(self)@.log_appended(entry));
    }
}

} // verus!
