//! The decisions of the bridge that relays lines between the user and the
//! proxied child process: what to forward, what to log, which counters to
//! advance, and when to stop. The bridge's loop reads and writes the streams
//! and reports what happened.

use vstd::prelude::*;
use vstd::string::*;
use crate::platform::is_random_uuid;
use crate::text::{concat, trim, trimmed};
use crate::types::{LogEntry, LogLevel, ProxyId, ProxyStats};

verus! {

/// The counters are reported to the monitor this often.
pub const STATS_INTERVAL_MS: u64 = 1_000;

/// One of the three relayed directions, named by where its lines come from.
#[derive(Debug, Clone, Copy, PartialEq, Eq, Structural)]
pub enum Stream {
    /// From the user's input to the child's input.
    UserInput,
    /// From the child's output to the user's output.
    ChildOutput,
    /// From the child's error stream to the user's error stream.
    ChildError,
}

/// The result of reading one line.
#[derive(Debug)]
pub enum LineRead {
    /// The stream is at its end.
    Eof,
    /// A line, with its line feed if it had one.
    Line(String),
    /// Reading failed.
    Failed,
}

/// How the child process ended.
#[derive(Debug, Clone, Copy, PartialEq, Eq, Structural)]
pub enum ChildExit {
    Success,
    Failure,
    /// Waiting for the child failed.
    Unknown,
}

/// What the bridge is told.
#[derive(Debug)]
pub enum BridgeEvent {
    /// Shutdown was requested.
    Shutdown,
    /// The statistics interval elapsed.
    StatsTick,
    /// A read on `from` completed.
    Read { from: Stream, outcome: LineRead },
    /// A line of `bytes` bytes from `from` was written and flushed, or not.
    Written { from: Stream, bytes: usize, ok: bool },
    /// The child process ended.
    ChildExited(ChildExit),
}

/// What the bridge is to do next.
#[derive(Debug)]
pub enum BridgeAction {
    /// Leave the loop.
    Stop,
    /// Go on waiting.
    Continue,
    /// Report these counters to the monitor, then go on.
    ReportStats(ProxyStats),
    /// Report `log` to the monitor, write `line` to the destination of
    /// `from` and flush, then report `Written`.
    Forward { from: Stream, line: String, log: LogEntry },
}

impl Stream {
    /// The level under which lines of this direction are logged.
    pub open spec fn spec_level(self) -> LogLevel {
        match self {
            Stream::UserInput => LogLevel::Request,
            Stream::ChildOutput => LogLevel::Response,
            Stream::ChildError => LogLevel::Error,
        }
    }

    /// The mark that precedes lines of this direction in the log.
    pub open spec fn spec_mark(self) -> Seq<char> {
        match self {
            Stream::UserInput => "→ "@,
            Stream::ChildOutput => "← "@,
            Stream::ChildError => "stderr: "@,
        }
    }

    /// The level under which lines of this direction are logged.
    pub fn level(self) -> (level: LogLevel)
        ensures
            level == self.spec_level(),
    {
        match self {
            Stream::UserInput => LogLevel::Request,
            Stream::ChildOutput => LogLevel::Response,
            Stream::ChildError => LogLevel::Error,
        }
    }

    /// The mark that precedes lines of this direction in the log.
    pub fn mark(self) -> (mark: &'static str)
        ensures
            mark@ == self.spec_mark(),
    {
        match self {
            Stream::UserInput => "→ ",
            Stream::ChildOutput => "← ",
            Stream::ChildError => "stderr: ",
        }
    }
}

/// Whether `log` is the entry for `line` relayed on `from` by `proxy`: the
/// level of the direction, and its mark followed by the trimmed line.
pub open spec fn is_traffic_log(log: LogEntry, from: Stream, line: Seq<char>, proxy: ProxyId) -> bool {
    &&& log.level == from.spec_level()
    &&& log.message@ == from.spec_mark() + trimmed(line)
    &&& log.proxy_id == proxy
    &&& log.request_id is None
    &&& log.metadata is None
    &&& is_random_uuid(log.id)
}

/// The log entry for `line` relayed on `from` by `proxy`.
pub fn traffic_log(from: Stream, line: &str, proxy: ProxyId) -> (log: LogEntry)
    ensures
        is_traffic_log(log, from, line@, proxy),
{
    let message = concat(from.mark(), trim(line));
    LogEntry::new(from.level(), message, proxy)
}

/// The counters after a line of `bytes` bytes was relayed on `from`: user
/// input counts as a request, child output as a success, and both add to
/// the bytes transferred; the error stream counts nothing.
pub open spec fn stats_after_relay(stats: ProxyStats, from: Stream, bytes: nat) -> ProxyStats {
    match from {
        Stream::UserInput => ProxyStats {
            total_requests: (stats.total_requests + 1) as u64,
            bytes_transferred: (stats.bytes_transferred + bytes) as u64,
            ..stats
        },
        Stream::ChildOutput => ProxyStats {
            successful_requests: (stats.successful_requests + 1) as u64,
            bytes_transferred: (stats.bytes_transferred + bytes) as u64,
            ..stats
        },
        Stream::ChildError => stats,
    }
}

/// The counters after one more failure.
pub open spec fn stats_after_failure(stats: ProxyStats) -> ProxyStats {
    ProxyStats { failed_requests: (stats.failed_requests + 1) as u64, ..stats }
}

/// Whether `event` counts a failure: the child's output could not be read,
/// or the child ended unsuccessfully.
pub open spec fn counts_failure(event: BridgeEvent) -> bool {
    match event {
        BridgeEvent::Read { from, outcome } => from == Stream::ChildOutput && outcome is Failed,
        BridgeEvent::ChildExited(exit) => exit == ChildExit::Failure,
        _ => false,
    }
}

/// Whether `event` counts a relayed line.
pub open spec fn counts_relay(event: BridgeEvent) -> bool {
    match event {
        BridgeEvent::Written { from, bytes, ok } => ok && from != Stream::ChildError,
        _ => false,
    }
}

/// The counters after `event`.
pub open spec fn stats_after(stats: ProxyStats, event: BridgeEvent) -> ProxyStats {
    match event {
        BridgeEvent::Written { from, bytes, ok } => if ok {
            stats_after_relay(stats, from, bytes as nat)
        } else {
            stats
        },
        _ => if counts_failure(event) {
            stats_after_failure(stats)
        } else {
            stats
        },
    }
}

/// Whether the counters can take `event` without exceeding their width.
pub open spec fn counters_have_room(stats: ProxyStats, event: BridgeEvent) -> bool {
    match event {
        BridgeEvent::Written { from, bytes, ok } => counts_relay(event) ==> {
            &&& from == Stream::UserInput ==> stats.total_requests < u64::MAX
            &&& from == Stream::ChildOutput ==> stats.successful_requests < u64::MAX
            &&& stats.bytes_transferred + bytes <= u64::MAX
        },
        _ => counts_failure(event) ==> stats.failed_requests < u64::MAX,
    }
}

/// Whether `action` is what the bridge of `proxy` with counters `stats`
/// answers to `event`:
/// shutdown stops; a statistics tick reports the counters; a line that was
/// read is forwarded with its log entry; the end of the user's input or of
/// the child's output stops, as does a failure to read either, while the
/// error stream may end or fail without consequence; a line that could not
/// be written stops unless it came from the error stream; the end of the
/// child stops.
pub open spec fn is_answer(
    stats: ProxyStats,
    proxy: ProxyId,
    event: BridgeEvent,
    action: BridgeAction,
) -> bool {
    match event {
        BridgeEvent::Shutdown => action is Stop,
        BridgeEvent::StatsTick => action == BridgeAction::ReportStats(stats),
        BridgeEvent::Read { from, outcome } => match outcome {
            LineRead::Line(text) => action matches BridgeAction::Forward {
                from: target,
                line,
                log,
            } && target == from && line == text && is_traffic_log(log, from, text@, proxy),
            _ => if from == Stream::ChildError {
                action is Continue
            } else {
                action is Stop
            },
        },
        BridgeEvent::Written { from, bytes, ok } => if ok || from == Stream::ChildError {
            action is Continue
        } else {
            action is Stop
        },
        BridgeEvent::ChildExited(exit) => action is Stop,
    }
}

/// No event makes a counter smaller, as long as the counters have room for
/// it.
pub proof fn lemma_counters_never_decrease(stats: ProxyStats, event: BridgeEvent)
    requires
        counters_have_room(stats, event),
    ensures
        stats_after(stats, event).total_requests >= stats.total_requests,
        stats_after(stats, event).successful_requests >= stats.successful_requests,
        stats_after(stats, event).failed_requests >= stats.failed_requests,
        stats_after(stats, event).bytes_transferred >= stats.bytes_transferred,
        stats_after(stats, event).active_connections == stats.active_connections,
        stats_after(stats, event).proxy_id == stats.proxy_id,
        stats_after(stats, event).uptime == stats.uptime,
{
}

/// The bridge's state: whose traffic it relays, and the counters so far.
pub struct Bridge {
    pub proxy_id: ProxyId,
    pub stats: ProxyStats,
}

impl Bridge {
    /// A bridge for `proxy_id`, continuing from `stats`.
    pub fn new(proxy_id: ProxyId, stats: ProxyStats) -> (bridge: Self)
        ensures
            bridge.proxy_id == proxy_id,
            bridge.stats == stats,
    {
        Bridge { proxy_id, stats }
    }

    /// A copy of the counters.
    pub fn snapshot(&self) -> (stats: ProxyStats)
        ensures
            stats == self.stats,
    {
        ProxyStats {
            proxy_id: self.stats.proxy_id,
            total_requests: self.stats.total_requests,
            successful_requests: self.stats.successful_requests,
            failed_requests: self.stats.failed_requests,
            active_connections: self.stats.active_connections,
            uptime: self.stats.uptime,
            bytes_transferred: self.stats.bytes_transferred,
        }
    }

    /// Whether the counters can take `event` without exceeding their width.
    pub fn has_room(&self, event: &BridgeEvent) -> (r: bool)
        ensures
            r == counters_have_room(self.stats, *event),
    {
        match event {
            BridgeEvent::Written { from, bytes, ok } => {
                if !*ok {
                    return true;
                }
                let bytes_fit = *bytes as u64 <= u64::MAX - self.stats.bytes_transferred;
                match from {
                    Stream::ChildError => true,
                    Stream::UserInput => self.stats.total_requests < u64::MAX && bytes_fit,
                    Stream::ChildOutput => self.stats.successful_requests < u64::MAX && bytes_fit,
                }
            },
            BridgeEvent::Read { from, outcome } => match (from, outcome) {
                (Stream::ChildOutput, LineRead::Failed) => self.stats.failed_requests < u64::MAX,
                _ => true,
            },
            BridgeEvent::ChildExited(exit) => match exit {
                ChildExit::Failure => self.stats.failed_requests < u64::MAX,
                _ => true,
            },
            _ => true,
        }
    }

    /// Counts one failure.
    fn count_failure(&mut self)
        requires
            old(self).stats.failed_requests < u64::MAX,
        ensures
            final(self).stats == stats_after_failure(old(self).stats),
            final(self).proxy_id == old(self).proxy_id,
    {
        self.stats.failed_requests = self.stats.failed_requests + 1;
    }

    /// Counts one relayed line.
    fn count_relay(&mut self, from: Stream, bytes: usize)
        requires
            from == Stream::UserInput ==> old(self).stats.total_requests < u64::MAX,
            from == Stream::ChildOutput ==> old(self).stats.successful_requests < u64::MAX,
            from != Stream::ChildError ==> old(self).stats.bytes_transferred + bytes <= u64::MAX,
        ensures
            final(self).stats == stats_after_relay(old(self).stats, from, bytes as nat),
            final(self).proxy_id == old(self).proxy_id,
    {
        match from {
            Stream::UserInput => {
                self.stats.total_requests = self.stats.total_requests + 1;
                self.stats.bytes_transferred = self.stats.bytes_transferred + bytes as u64;
            },
            Stream::ChildOutput => {
                self.stats.successful_requests = self.stats.successful_requests + 1;
                self.stats.bytes_transferred = self.stats.bytes_transferred + bytes as u64;
            },
            Stream::ChildError => {},
        }
    }

    /// Takes in one event and says what to do next.
    pub fn step(&mut self, event: BridgeEvent) -> (action: BridgeAction)
        requires
            counters_have_room(old(self).stats, event),
        ensures
            final(self).proxy_id == old(self).proxy_id,
            final(self).stats == stats_after(old(self).stats, event),
            is_answer(old(self).stats, old(self).proxy_id, event, action),
    {
        match event {
            BridgeEvent::Shutdown => BridgeAction::Stop,
            BridgeEvent::StatsTick => BridgeAction::ReportStats(self.snapshot()),
            BridgeEvent::Read { from, outcome } => match outcome {
                LineRead::Line(text) => {
                    let log = traffic_log(from, text.as_str(), self.proxy_id);
                    BridgeAction::Forward { from, line: text, log }
                },
                LineRead::Eof => match from {
                    Stream::ChildError => BridgeAction::Continue,
                    _ => BridgeAction::Stop,
                },
                LineRead::Failed => match from {
                    Stream::ChildError => BridgeAction::Continue,
                    Stream::ChildOutput => {
                        self.count_failure();
                        BridgeAction::Stop
                    },
                    Stream::UserInput => BridgeAction::Stop,
                },
            },
            BridgeEvent::Written { from, bytes, ok } => {
                if ok {
                    match from {
                        Stream::ChildError => {},
                        _ => self.count_relay(from, bytes),
                    }
                    BridgeAction::Continue
                } else {
                    match from {
                        Stream::ChildError => BridgeAction::Continue,
                        _ => BridgeAction::Stop,
                    }
                }
            },
            BridgeEvent::ChildExited(exit) => {
                match exit {
                    ChildExit::Failure => self.count_failure(),
                    _ => {},
                }
                BridgeAction::Stop
            },
        }
    }
}

} // verus!
