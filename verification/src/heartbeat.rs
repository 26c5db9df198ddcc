//! The heartbeat scheduler.
//!
//! The server dictates an interval; the client owes a heartbeat whenever that
//! much time has passed since the last one it sent. Time is a count of
//! milliseconds read from a monotonic clock by the caller.

use vstd::prelude::*;

verus! {

/// How many heartbeats in a row may go unacknowledged before the connection
/// counts as dead.
pub const MAX_UNACKED: u32 = 2;

/// The scheduler's state.
#[derive(Debug)]
pub struct Heartbeat {
    interval: u64,
    last_sent: u64,
    unacked: u32,
}

/// The mathematical form of a [`Heartbeat`].
pub struct HeartbeatModel {
    /// Milliseconds between heartbeats; 0 while the server has not said.
    pub interval: u64,
    /// When the last heartbeat was sent.
    pub last_sent: u64,
    /// Heartbeats sent since the last acknowledgement, counted up to
    /// [`MAX_UNACKED`].
    pub unacked: u32,
}

impl View for Heartbeat {
    type V = HeartbeatModel;

    closed spec fn view(&self) -> HeartbeatModel {
        HeartbeatModel { interval: self.interval, last_sent: self.last_sent, unacked: self.unacked }
    }
}

/// What the scheduler asks for at a tick.
#[derive(Clone, Copy, Debug, PartialEq, Eq, Structural)]
pub enum Beat {
    /// No heartbeat is owed yet.
    Idle,
    /// A heartbeat is owed.
    Send,
    /// A heartbeat is owed, but the last [`MAX_UNACKED`] went unanswered: the
    /// connection is dead.
    Expired,
}

impl HeartbeatModel {
    /// The scheduler before the server has named an interval.
    pub open spec fn idle(now: u64) -> HeartbeatModel {
        HeartbeatModel { interval: 0, last_sent: now, unacked: 0 }
    }

    /// Milliseconds since the last heartbeat was sent; 0 if the clock reads
    /// earlier than that.
    pub open spec fn elapsed(self, now: u64) -> int {
        if now >= self.last_sent {
            now - self.last_sent
        } else {
            0
        }
    }

    /// A heartbeat is owed: the interval is known and has passed.
    pub open spec fn due(self, now: u64) -> bool {
        self.interval > 0 && self.elapsed(now) >= self.interval
    }

    /// Every heartbeat since [`MAX_UNACKED`] sends ago went unanswered.
    pub open spec fn expired(self) -> bool {
        self.unacked >= MAX_UNACKED
    }

    /// What a tick at `now` asks for.
    pub open spec fn tick(self, now: u64) -> Beat {
        if !self.due(now) {
            Beat::Idle
        } else if self.expired() {
            Beat::Expired
        } else {
            Beat::Send
        }
    }

    /// The scheduler after a heartbeat was sent at `now`.
    pub open spec fn sent(self, now: u64) -> HeartbeatModel {
        HeartbeatModel {
            interval: self.interval,
            last_sent: now,
            unacked: if self.unacked < MAX_UNACKED {
                (self.unacked + 1) as u32
            } else {
                MAX_UNACKED
            },
        }
    }

    /// The scheduler after the server acknowledged a heartbeat.
    pub open spec fn acknowledged(self) -> HeartbeatModel {
        HeartbeatModel { interval: self.interval, last_sent: self.last_sent, unacked: 0 }
    }

    /// The scheduler after the server named an interval. The time of the last
    /// heartbeat stays, so a heartbeat may be owed at once.
    pub open spec fn started(self, interval: u64) -> HeartbeatModel {
        HeartbeatModel { interval, last_sent: self.last_sent, unacked: 0 }
    }

    /// The scheduler after the connection ended: the interval is unknown
    /// again.
    pub open spec fn stopped(self) -> HeartbeatModel {
        HeartbeatModel { interval: 0, last_sent: self.last_sent, unacked: 0 }
    }
}

impl Heartbeat {
    /// A scheduler that knows no interval yet and counts time from `now`.
    pub fn new(now: u64) -> (heartbeat: Heartbeat)
        ensures
            heartbeat@ == HeartbeatModel::idle(now),
    {
        Heartbeat { interval: 0, last_sent: now, unacked: 0 }
    }

    /// The interval the server named, 0 if none.
    pub fn interval(&self) -> (interval: u64)
        ensures
            interval == self@.interval,
    {
        self.interval
    }

    /// Whether the last heartbeat sent has been acknowledged (or none is
    /// outstanding).
    pub fn is_acked(&self) -> (acked: bool)
        ensures
            acked == (self@.unacked == 0),
    {
        self.unacked == 0
    }

    /// Whether a heartbeat is owed at `now`: true if and only if the interval
    /// is known and at least that long has passed since the last heartbeat.
    pub fn due(&self, now: u64) -> (due: bool)
        ensures
            due == self@.due(now),
            due <==> self@.interval > 0 && now >= self@.last_sent && now - self@.last_sent
                >= self@.interval,
    {
        self.interval > 0 && now >= self.last_sent && now - self.last_sent >= self.interval
    }

    /// What the scheduler asks for at `now`.
    pub fn tick(&self, now: u64) -> (beat: Beat)
        ensures
            beat == self@.tick(now),
    {
        if !self.due(now) {
            Beat::Idle
        } else if self.unacked >= MAX_UNACKED {
            Beat::Expired
        } else {
            Beat::Send
        }
    }

    /// Records that a heartbeat was sent at `now`: time is counted from `now`
    /// again, and one more heartbeat awaits its acknowledgement.
    pub fn record_sent(&mut self, now: u64)
        ensures
            final(self)@ == old(self)@.sent(now),
            final(self)@.elapsed(now) == 0,
    {
        self.last_sent = now;
        if self.unacked < MAX_UNACKED {
            self.unacked = self.unacked + 1;
        } else {
            self.unacked = MAX_UNACKED;
        }
    }

    /// Records that the server acknowledged a heartbeat.
    pub fn record_ack(&mut self)
        ensures
            final(self)@ == old(self)@.acknowledged(),
    {
        self.unacked = 0;
    }

    /// Takes the interval that the server named.
    pub fn start(&mut self, interval: u64)
        ensures
            final(self)@ == old(self)@.started(interval),
    {
        self.interval = interval;
        self.unacked = 0;
    }

    /// Forgets the interval: no heartbeat is owed until the server names one
    /// again.
    pub fn stop(&mut self)
        ensures
            final(self)@ == old(self)@.stopped(),
    {
        self.interval = 0;
        self.unacked = 0;
    }
}

/// While the interval is unknown no heartbeat is ever owed, and once the
/// server names one a heartbeat is owed as soon as that long has passed.
pub proof fn lemma_unknown_interval_is_never_due(model: HeartbeatModel, interval: u64, now: u64)
    requires
        model.interval == 0,
    ensures
        !model.due(now),
        model.tick(now) == Beat::Idle,
        interval > 0 && model.elapsed(now) >= interval ==> model.started(interval).due(now),
{
}

/// Sending a heartbeat resets the timer: nothing has elapsed at the moment of
/// sending, no heartbeat is owed then, and the next one is owed exactly when
/// a known interval has passed since.
pub proof fn lemma_sending_resets_the_timer(model: HeartbeatModel, now: u64, later: u64)
    requires
        later >= now,
    ensures
        model.sent(now).elapsed(now) == 0,
        !model.sent(now).due(now),
        model.sent(now).elapsed(later) == later - now,
        model.sent(now).due(later) <==> model.interval > 0 && later - now >= model.interval,
{
}

/// An acknowledgement clears the count of unanswered heartbeats, and a
/// scheduler expires only after [`MAX_UNACKED`] sends without one.
pub proof fn lemma_expiry_needs_unanswered_heartbeats(model: HeartbeatModel, a: u64, b: u64)
    ensures
        !model.acknowledged().expired(),
        !model.acknowledged().sent(a).expired(),
        model.acknowledged().sent(a).sent(b).expired(),
{
}

} // verus!
