//! Heartbeat bookkeeping: liveness of the client-initiated heartbeat cadence.

use vstd::prelude::*;

verus! {

/// Whether the last heartbeat was acknowledged, and when it was sent and
/// acknowledged, in milliseconds of a monotonic clock.
#[derive(Clone, Copy, Debug, PartialEq, Eq, Structural)]
pub struct Heartbeat {
    pub acknowledged: bool,
    pub sent_at: Option<u64>,
    pub acked_at: Option<u64>,
}

/// The bookkeeping of a session that has sent no heartbeat yet.
pub open spec fn fresh_heartbeat() -> Heartbeat {
    Heartbeat { acknowledged: true, sent_at: None, acked_at: None }
}

/// The time from `from` to `to`, zero where the clock reads earlier.
pub open spec fn elapsed(from: u64, to: u64) -> u64 {
    if to >= from {
        (to - from) as u64
    } else {
        0
    }
}

/// The latency of an acknowledgment at `now`: `None` where no heartbeat was sent.
pub open spec fn latency_at(h: Heartbeat, now: u64) -> Option<u64> {
    match h.sent_at {
        Some(s) => Some(elapsed(s, now)),
        None => None,
    }
}

impl Heartbeat {
    pub fn new() -> (r: Heartbeat)
        ensures
            r == fresh_heartbeat(),
    {
        Heartbeat { acknowledged: true, sent_at: None, acked_at: None }
    }

    /// A heartbeat goes out at `now`. Returns whether the previous one was
    /// never acknowledged (a possible zombie connection).
    pub fn on_tick(&mut self, now: u64) -> (zombie: bool)
        ensures
            zombie == !old(self).acknowledged,
            *final(self) == (Heartbeat { acknowledged: false, sent_at: Some(now), acked_at: None }),
    {
        let zombie = !self.acknowledged;
        self.acknowledged = false;
        self.sent_at = Some(now);
        self.acked_at = None;
        zombie
    }

    /// The remote acknowledged the heartbeat at `now`. Returns the latency.
    pub fn on_ack(&mut self, now: u64) -> (latency: Option<u64>)
        ensures
            *final(self) == (Heartbeat { acknowledged: true, sent_at: old(self).sent_at, acked_at: Some(now) }),
            latency == latency_at(*old(self), now),
            latency matches Some(l) ==> now >= old(self).sent_at->0 ==> l == now - old(self).sent_at->0,
    {
        self.acknowledged = true;
        self.acked_at = Some(now);
        match self.sent_at {
            Some(s) => if now >= s {
                Some(now - s)
            } else {
                Some(0)
            },
            None => None,
        }
    }
}

} // verus!
