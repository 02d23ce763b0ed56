//! The decisions of the worker that delivers a proxy's messages to a monitor
//! which may start later, disappear and come back: when to send, when to
//! buffer, when to drop, and when to try the connection again. The worker's
//! loop performs the actions and reports what happened.

use vstd::prelude::*;
use std::collections::VecDeque;
use crate::messages::IpcMessage;

verus! {

/// The buffer holds at most this many messages; further ones are dropped.
pub const MAX_BUFFER_SIZE: usize = 10_000;

/// Capacity of the queue between the sender and the worker.
pub const QUEUE_CAPACITY: usize = 1_000;

/// Delay before the first reconnection attempt, and after every loss of the
/// connection.
pub const INITIAL_RECONNECT_DELAY_MS: u64 = 1_000;

/// The delay between reconnection attempts never exceeds this.
pub const MAX_RECONNECT_DELAY_MS: u64 = 30_000;

/// The delay grows by this factor after each failed attempt.
pub const RECONNECT_BACKOFF_FACTOR: u64 = 2;

/// The worker looks at the clock at least this often.
pub const RECONNECT_TICK_MS: u64 = 100;

/// What the worker is told.
#[derive(Debug)]
pub enum WorkerEvent {
    /// A message arrived through the queue.
    Accepted(IpcMessage),
    /// A message did not fit the queue.
    Overflowed(IpcMessage),
    /// The connection refused a message handed out by `Send`.
    SendFailed(IpcMessage),
    /// Time passed; so many milliseconds since the last connection attempt.
    Tick { since_last_attempt_ms: u64 },
    /// A connection attempt succeeded.
    Connected,
    /// A connection attempt failed.
    ConnectFailed,
    /// The message at the head of the buffer was sent.
    Flushed,
    /// The connection refused the message at the head of the buffer.
    FlushFailed,
}

/// What the worker is to do next.
#[derive(Debug)]
pub enum WorkerAction {
    /// Nothing.
    Idle,
    /// Send this message; report `SendFailed` with it if that fails.
    Send(IpcMessage),
    /// Try to connect; report `Connected` or `ConnectFailed`.
    Connect,
    /// Send a copy of the head of the buffer; report `Flushed` or
    /// `FlushFailed`.
    FlushHead,
}

/// The worker's state.
pub struct Delivery {
    pub buffer: VecDeque<IpcMessage>,
    pub dropped: u64,
    pub connected: bool,
    pub reconnect_delay_ms: u64,
}

/// The worker's state as a mathematical value.
#[verifier::ext_equal]
pub struct DeliveryView {
    pub buffer: Seq<IpcMessage>,
    pub dropped: nat,
    pub connected: bool,
    pub reconnect_delay_ms: nat,
}

impl View for Delivery {
    type V = DeliveryView;

    open spec fn view(&self) -> DeliveryView {
        DeliveryView {
            buffer: self.buffer@,
            dropped: self.dropped as nat,
            connected: self.connected,
            reconnect_delay_ms: self.reconnect_delay_ms as nat,
        }
    }
}

impl DeliveryView {
    /// Disconnected, nothing buffered, nothing dropped, the first attempt
    /// due after the initial delay.
    pub open spec fn initial() -> DeliveryView {
        DeliveryView {
            buffer: Seq::empty(),
            dropped: 0,
            connected: false,
            reconnect_delay_ms: INITIAL_RECONNECT_DELAY_MS as nat,
        }
    }

    /// The buffer respects its cap and the delay its bounds.
    pub open spec fn wf(self) -> bool {
        &&& self.buffer.len() <= MAX_BUFFER_SIZE
        &&& INITIAL_RECONNECT_DELAY_MS <= self.reconnect_delay_ms <= MAX_RECONNECT_DELAY_MS
    }

    /// A message is put at the end of the buffer, or dropped and counted if
    /// the buffer is full.
    pub open spec fn enqueue(self, message: IpcMessage) -> DeliveryView {
        if self.buffer.len() < MAX_BUFFER_SIZE {
            DeliveryView { buffer: self.buffer.push(message), ..self }
        } else {
            DeliveryView { dropped: (self.dropped + 1) as nat, ..self }
        }
    }

    /// The connection is gone; the next attempt is due after the initial
    /// delay.
    pub open spec fn disconnected(self) -> DeliveryView {
        DeliveryView {
            connected: false,
            reconnect_delay_ms: INITIAL_RECONNECT_DELAY_MS as nat,
            ..self
        }
    }

    /// The delay after one more failed attempt: doubled, up to the maximum.
    pub open spec fn backed_off(self) -> DeliveryView {
        DeliveryView {
            reconnect_delay_ms: if self.reconnect_delay_ms * RECONNECT_BACKOFF_FACTOR
                <= MAX_RECONNECT_DELAY_MS {
                (self.reconnect_delay_ms * RECONNECT_BACKOFF_FACTOR) as nat
            } else {
                MAX_RECONNECT_DELAY_MS as nat
            },
            ..self
        }
    }

    /// What to do with the buffer while connected: flush its head if it has
    /// one.
    pub open spec fn flush_action(self) -> WorkerAction {
        if self.buffer.len() > 0 {
            WorkerAction::FlushHead
        } else {
            WorkerAction::Idle
        }
    }

    /// The next state and the action that `event` leads to.
    pub open spec fn step(self, event: WorkerEvent) -> (DeliveryView, WorkerAction) {
        match event {
            WorkerEvent::Accepted(message) => if self.connected {
                (self, WorkerAction::Send(message))
            } else {
                (self.enqueue(message), WorkerAction::Idle)
            },
            WorkerEvent::Overflowed(message) => (self.enqueue(message), WorkerAction::Idle),
            WorkerEvent::SendFailed(message) => (
                self.disconnected().enqueue(message),
                WorkerAction::Idle,
            ),
            WorkerEvent::Tick { since_last_attempt_ms } => if !self.connected
                && since_last_attempt_ms >= self.reconnect_delay_ms {
                (self, WorkerAction::Connect)
            } else {
                (self, WorkerAction::Idle)
            },
            WorkerEvent::Connected => {
                let next = DeliveryView {
                    connected: true,
                    reconnect_delay_ms: INITIAL_RECONNECT_DELAY_MS as nat,
                    ..self
                };
                (next, next.flush_action())
            },
            WorkerEvent::ConnectFailed => (self.backed_off(), WorkerAction::Idle),
            WorkerEvent::Flushed => if self.connected && self.buffer.len() > 0 {
                let next = DeliveryView { buffer: self.buffer.drop_first(), ..self };
                (next, next.flush_action())
            } else {
                (self, WorkerAction::Idle)
            },
            WorkerEvent::FlushFailed => (self.disconnected(), WorkerAction::Idle),
        }
    }

    /// Whether `event` may count a dropped message.
    pub open spec fn may_drop(event: WorkerEvent) -> bool {
        event is Accepted || event is Overflowed || event is SendFailed
    }
}

impl Delivery {
    /// The state of a worker that has not connected yet.
    pub fn new() -> (d: Self)
        ensures
            d@ == DeliveryView::initial(),
            d@.wf(),
    {
        let d = Delivery {
            buffer: VecDeque::new(),
            dropped: 0,
            connected: false,
            reconnect_delay_ms: INITIAL_RECONNECT_DELAY_MS,
        };
        assert(d@ =~= DeliveryView::initial());
        d
    }

    /// Puts a message at the end of the buffer, or drops and counts it if
    /// the buffer is full.
    fn enqueue(&mut self, message: IpcMessage)
        requires
            old(self).dropped < u64::MAX,
        ensures
            final(self)@ == old(self)@.enqueue(message),
    {
        if self.buffer.len() < MAX_BUFFER_SIZE {
            self.buffer.push_back(message);
        } else {
            self.dropped = self.dropped + 1;
        }
        assert(self@ =~= old(self)@.enqueue(message));
    }

    /// Forgets the connection and resets the delay.
    fn disconnect(&mut self)
        ensures
            final(self)@ == old(self)@.disconnected(),
    {
        self.connected = false;
        self.reconnect_delay_ms = INITIAL_RECONNECT_DELAY_MS;
        assert(self@ =~= old(self)@.disconnected());
    }

    /// What to do with the buffer while connected.
    fn flush_action(&self) -> (action: WorkerAction)
        ensures
            action == self@.flush_action(),
    {
        if self.buffer.len() > 0 {
            WorkerAction::FlushHead
        } else {
            WorkerAction::Idle
        }
    }

    /// The message that `FlushHead` asks to send: the head of the buffer.
    pub fn head(&self) -> (message: Option<&IpcMessage>)
        ensures
            message is Some == (self@.buffer.len() > 0),
            message matches Some(m) ==> *m == self@.buffer.first(),
    {
        if self.buffer.len() > 0 {
            Some(&self.buffer[0])
        } else {
            None
        }
    }

    /// Whether the counter of dropped messages can take `event`.
    pub fn has_room(&self, event: &WorkerEvent) -> (r: bool)
        ensures
            r == (DeliveryView::may_drop(*event) ==> self.dropped < u64::MAX),
    {
        match event {
            WorkerEvent::Accepted(_) | WorkerEvent::Overflowed(_) | WorkerEvent::SendFailed(_) => {
                self.dropped < u64::MAX
            },
            _ => true,
        }
    }

    /// Takes in one event and says what to do next.
    pub fn step(&mut self, event: WorkerEvent) -> (action: WorkerAction)
        requires
            DeliveryView::may_drop(event) ==> old(self).dropped < u64::MAX,
        ensures
            (final(self)@, action) == old(self)@.step(event),
            old(self)@.wf() ==> final(self)@.wf(),
    {
        match event {
            WorkerEvent::Accepted(message) => {
                if self.connected {
                    WorkerAction::Send(message)
                } else {
                    self.enqueue(message);
                    WorkerAction::Idle
                }
            },
            WorkerEvent::Overflowed(message) => {
                self.enqueue(message);
                WorkerAction::Idle
            },
            WorkerEvent::SendFailed(message) => {
                self.disconnect();
                self.enqueue(message);
                WorkerAction::Idle
            },
            WorkerEvent::Tick { since_last_attempt_ms } => {
                if !self.connected && since_last_attempt_ms >= self.reconnect_delay_ms {
                    WorkerAction::Connect
                } else {
                    WorkerAction::Idle
                }
            },
            WorkerEvent::Connected => {
                self.connected = true;
                self.reconnect_delay_ms = INITIAL_RECONNECT_DELAY_MS;
                assert(self@ =~= DeliveryView {
                    connected: true,
                    reconnect_delay_ms: INITIAL_RECONNECT_DELAY_MS as nat,
                    ..old(self)@
                });
                self.flush_action()
            },
            WorkerEvent::ConnectFailed => {
                self.reconnect_delay_ms = if self.reconnect_delay_ms <= MAX_RECONNECT_DELAY_MS
                    / RECONNECT_BACKOFF_FACTOR {
                    self.reconnect_delay_ms * RECONNECT_BACKOFF_FACTOR
                } else {
                    MAX_RECONNECT_DELAY_MS
                };
                assert(self@ =~= old(self)@.backed_off());
                WorkerAction::Idle
            },
            WorkerEvent::Flushed => {
                if self.connected && self.buffer.len() > 0 {
                    self.buffer.pop_front();
                    assert(self@ =~= DeliveryView {
                        buffer: old(self)@.buffer.drop_first(),
                        ..old(self)@
                    });
                    self.flush_action()
                } else {
                    WorkerAction::Idle
                }
            },
            WorkerEvent::FlushFailed => {
                self.disconnect();
                WorkerAction::Idle
            },
        }
    }
}

/// The state after the messages of `messages` were accepted one by one.
pub open spec fn after_accepting(s: DeliveryView, messages: Seq<IpcMessage>) -> DeliveryView
    decreases messages.len(),
{
    if messages.len() == 0 {
        s
    } else {
        after_accepting(s, messages.drop_last()).step(WorkerEvent::Accepted(messages.last())).0
    }
}

/// The state after the first `count` messages of the buffer were flushed.
pub open spec fn after_flushing(s: DeliveryView, count: nat) -> DeliveryView
    decreases count,
{
    if count == 0 {
        s
    } else {
        after_flushing(s, (count - 1) as nat).step(WorkerEvent::Flushed).0
    }
}

/// While the monitor is away, the buffer keeps the earliest messages up to
/// its cap, in the order in which they were accepted; every later one is
/// dropped and counted, and nothing is sent.
pub proof fn lemma_overflow_keeps_earliest(s: DeliveryView, messages: Seq<IpcMessage>)
    requires
        !s.connected,
        s.buffer.len() <= MAX_BUFFER_SIZE,
    ensures
        ({
            let t = after_accepting(s, messages);
            let all = s.buffer + messages;
            let kept: nat = if all.len() <= MAX_BUFFER_SIZE {
                all.len()
            } else {
                MAX_BUFFER_SIZE as nat
            };
            &&& t.buffer == all.take(kept as int)
            &&& t.dropped == s.dropped + (all.len() - kept)
            &&& !t.connected
            &&& t.reconnect_delay_ms == s.reconnect_delay_ms
        }),
    decreases messages.len(),
{
    if messages.len() == 0 {
        assert((s.buffer + messages).take(s.buffer.len() as int) =~= s.buffer);
    } else {
        let front = messages.drop_last();
        lemma_overflow_keeps_earliest(s, front);
        let before = after_accepting(s, front);
        let t = after_accepting(s, messages);
        let all_before = s.buffer + front;
        let all = s.buffer + messages;
        assert(all =~= all_before.push(messages.last()));
        if before.buffer.len() < MAX_BUFFER_SIZE {
            assert(t.buffer =~= all.take(all.len() as int));
        } else {
            assert(t.buffer =~= all.take(MAX_BUFFER_SIZE as int));
        }
    }
}

/// While connected, flushing hands out the buffered messages from the
/// oldest on: after `count` of them were sent, the rest of the buffer is
/// what remains, and the worker asks for the next head until none is left.
pub proof fn lemma_flush_in_order(s: DeliveryView, count: nat)
    requires
        s.connected,
        count <= s.buffer.len(),
    ensures
        after_flushing(s, count).buffer == s.buffer.skip(count as int),
        after_flushing(s, count).connected,
        after_flushing(s, count).dropped == s.dropped,
        count < s.buffer.len() ==> after_flushing(s, count).flush_action()
            == WorkerAction::FlushHead && after_flushing(s, count).buffer.first()
            == s.buffer[count as int],
        count == s.buffer.len() ==> after_flushing(s, count).flush_action() == WorkerAction::Idle,
    decreases count,
{
    if count == 0 {
        assert(s.buffer.skip(0) =~= s.buffer);
    } else {
        lemma_flush_in_order(s, (count - 1) as nat);
        let before = after_flushing(s, (count - 1) as nat);
        assert(before.buffer.drop_first() =~= s.buffer.skip(count as int));
    }
}

/// Messages accepted before the monitor is there, up to the cap, are all
/// flushed once it is, in the order in which they were accepted.
pub proof fn lemma_reconnect_delivers_accepted(messages: Seq<IpcMessage>, count: nat)
    requires
        messages.len() <= MAX_BUFFER_SIZE,
        count < messages.len(),
    ensures
        ({
            let waiting = after_accepting(DeliveryView::initial(), messages);
            let (linked, action) = waiting.step(WorkerEvent::Connected);
            &&& waiting.buffer == messages
            &&& waiting.dropped == 0
            &&& action == WorkerAction::FlushHead
            &&& after_flushing(linked, count).buffer.first() == messages[count as int]
            &&& after_flushing(linked, messages.len()).buffer.len() == 0
        }),
{
    let start = DeliveryView::initial();
    lemma_overflow_keeps_earliest(start, messages);
    assert(start.buffer + messages =~= messages);
    assert(messages.take(messages.len() as int) =~= messages);
    let waiting = after_accepting(start, messages);
    let linked = waiting.step(WorkerEvent::Connected).0;
    lemma_flush_in_order(linked, count);
    lemma_flush_in_order(linked, messages.len());
}

/// While the monitor is there, an accepted message is handed out for sending
/// at once, and nothing is buffered or dropped.
pub proof fn lemma_connected_sends(s: DeliveryView, message: IpcMessage)
    requires
        s.connected,
    ensures
        s.step(WorkerEvent::Accepted(message)) == (s, WorkerAction::Send(message)),
{
}

/// The delay between attempts stays within its bounds whatever happens.
pub proof fn lemma_delay_bounded(s: DeliveryView, event: WorkerEvent)
    requires
        s.wf(),
    ensures
        s.step(event).0.wf(),
{
}

} // verus!
