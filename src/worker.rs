//! The session worker as a state machine: from its state and one event to
//! its next state and the actions that the event loop performs.
//!
//! A frame that cannot be decoded ends the session, as a close frame does. A
//! failed read from the transport does not: the caller receives a typed
//! `Inbound::ReadError`, distinct from any payload, and the loop goes on.
//! Commands are read from the outbound queue only once the session is live.

use vstd::prelude::*;
use crate::codec::{
    decode_frame, decode_frame_spec, encode_envelope, envelope_text, hello_interval,
    hello_interval_spec, identify_payload, identify_text, payload_text, Frame,
    FrameView, GatewayError, GatewayErrorView,
};
use crate::envelope::{spec_op_of, OpCode};
use crate::heartbeat::{fresh_heartbeat, latency_at, Heartbeat};

verus! {

/// Where the worker stands in the session.
#[derive(Clone, Copy, Debug, PartialEq, Eq, Structural)]
pub enum Phase {
    AwaitingHello,
    Live,
    Terminated,
}

/// What the event loop hands the worker.
pub enum Event {
    /// A frame arrived from the transport.
    Inbound(Frame),
    /// Reading from the transport failed.
    ReadFailed,
    /// A caller submitted a command, as JSON text.
    Command(String),
    /// The heartbeat timer fired.
    Tick,
    /// Writing to the transport failed.
    WriteFailed,
}

pub enum EventView {
    Inbound(FrameView),
    ReadFailed,
    Command(Seq<char>),
    Tick,
    WriteFailed,
}

impl View for Event {
    type V = EventView;

    open spec fn view(&self) -> EventView {
        match self {
            Event::Inbound(f) => EventView::Inbound(f@),
            Event::ReadFailed => EventView::ReadFailed,
            Event::Command(c) => EventView::Command(c@),
            Event::Tick => EventView::Tick,
            Event::WriteFailed => EventView::WriteFailed,
        }
    }
}

/// What a caller receives from the inbound queue.
pub enum Inbound {
    /// The JSON text of a Dispatch payload.
    Payload(String),
    /// A read from the transport failed; the session goes on.
    ReadError,
}

pub enum InboundView {
    Payload(Seq<char>),
    ReadError,
}

impl View for Inbound {
    type V = InboundView;

    open spec fn view(&self) -> InboundView {
        match self {
            Inbound::Payload(p) => InboundView::Payload(p@),
            Inbound::ReadError => InboundView::ReadError,
        }
    }
}

/// What the event loop does for the worker, in order.
pub enum Action {
    /// Arm the heartbeat timer with this period, in milliseconds.
    StartTimer(u64),
    /// Write this text frame to the transport.
    Transmit(String),
    /// Push this onto the inbound queue.
    Deliver(Inbound),
    /// The last heartbeat was never acknowledged.
    ZombieWarning,
    /// A heartbeat was acknowledged after this many milliseconds.
    Latency(u64),
    /// The session ends for this reason.
    Terminate(GatewayError),
}

pub enum ActionView {
    StartTimer(u64),
    Transmit(Seq<char>),
    Deliver(InboundView),
    ZombieWarning,
    Latency(u64),
    Terminate(GatewayErrorView),
}

impl View for Action {
    type V = ActionView;

    open spec fn view(&self) -> ActionView {
        match self {
            Action::StartTimer(n) => ActionView::StartTimer(*n),
            Action::Transmit(t) => ActionView::Transmit(t@),
            Action::Deliver(i) => ActionView::Deliver(i@),
            Action::ZombieWarning => ActionView::ZombieWarning,
            Action::Latency(l) => ActionView::Latency(*l),
            Action::Terminate(e) => ActionView::Terminate(e@),
        }
    }
}

pub open spec fn actions_view(a: Seq<Action>) -> Seq<ActionView> {
    a.map_values(|x: Action| x@)
}

/// The credentials that Identify carries.
pub struct Credentials {
    pub project_id: String,
    pub token: String,
}

pub open spec fn credentials_view(c: Option<Credentials>) -> Option<(Seq<char>, Seq<char>)> {
    match c {
        Some(c) => Some((c.project_id@, c.token@)),
        None => None,
    }
}

/// The worker of one session. It alone owns the heartbeat bookkeeping.
pub struct Worker {
    pub phase: Phase,
    pub auth: Option<Credentials>,
    pub interval_ms: u64,
    pub next_due: u64,
    pub first_tick_pending: bool,
    pub heartbeat: Heartbeat,
}

pub struct WorkerView {
    pub phase: Phase,
    pub auth: Option<(Seq<char>, Seq<char>)>,
    pub interval_ms: u64,
    pub next_due: u64,
    pub first_tick_pending: bool,
    pub heartbeat: Heartbeat,
}

impl View for Worker {
    type V = WorkerView;

    open spec fn view(&self) -> WorkerView {
        WorkerView {
            phase: self.phase,
            auth: credentials_view(self.auth),
            interval_ms: self.interval_ms,
            next_due: self.next_due,
            first_tick_pending: self.first_tick_pending,
            heartbeat: self.heartbeat,
        }
    }
}

/// A worker that has not yet seen the remote's Hello.
pub open spec fn worker_start(auth: Option<(Seq<char>, Seq<char>)>) -> WorkerView {
    WorkerView {
        phase: Phase::AwaitingHello,
        auth,
        interval_ms: 0,
        next_due: 0,
        first_tick_pending: false,
        heartbeat: fresh_heartbeat(),
    }
}

pub open spec fn sat_add(a: u64, b: u64) -> u64 {
    if a + b > u64::MAX {
        u64::MAX
    } else {
        (a + b) as u64
    }
}

/// The Identify payload that the credentials give; `null` without any.
pub open spec fn identify_of(auth: Option<(Seq<char>, Seq<char>)>) -> Option<Seq<char>> {
    match auth {
        Some(c) => Some(identify_text(c.0, c.1)),
        None => None,
    }
}

pub open spec fn terminated(w: WorkerView, e: GatewayErrorView) -> (WorkerView, Seq<ActionView>) {
    (WorkerView { phase: Phase::Terminated, ..w }, seq![ActionView::Terminate(e)])
}

/// The first frame: a Hello with a positive interval starts the session and
/// sends Identify; anything else ends it.
pub open spec fn on_first_frame(w: WorkerView, f: FrameView, now: u64) -> (WorkerView, Seq<ActionView>) {
    match decode_frame_spec(f) {
        Ok(env) => {
            let interval = match env.payload {
                Some(p) => hello_interval_spec(p),
                None => None,
            };
            if spec_op_of(env.code) == Some(OpCode::Hello) && interval is Some && interval->0 > 0 {
                let n = interval->0;
                (
                    WorkerView {
                        phase: Phase::Live,
                        interval_ms: n,
                        next_due: sat_add(now, n),
                        first_tick_pending: true,
                        ..w
                    },
                    seq![
                        ActionView::StartTimer(n),
                        ActionView::Transmit(envelope_text(OpCode::Identify, identify_of(w.auth))),
                    ],
                )
            } else {
                terminated(w, GatewayErrorView::ProtocolViolation)
            }
        },
        Err(e) => terminated(w, e),
    }
}

/// A frame during the event loop.
pub open spec fn on_live_frame(w: WorkerView, f: FrameView, now: u64) -> (WorkerView, Seq<ActionView>) {
    match decode_frame_spec(f) {
        Ok(env) => match spec_op_of(env.code) {
            Some(OpCode::HeartbeatAck) => {
                let h = Heartbeat { acknowledged: true, sent_at: w.heartbeat.sent_at, acked_at: Some(now) };
                let a = match latency_at(w.heartbeat, now) {
                    Some(l) => seq![ActionView::Latency(l)],
                    None => seq![],
                };
                (WorkerView { heartbeat: h, ..w }, a)
            },
            Some(OpCode::Heartbeat) => (
                w,
                seq![ActionView::Transmit(envelope_text(OpCode::Heartbeat, env.payload))],
            ),
            Some(OpCode::Dispatch) => (
                w,
                seq![ActionView::Deliver(InboundView::Payload(payload_text(env.payload)))],
            ),
            _ => (w, seq![]),
        },
        Err(e) => terminated(w, e),
    }
}

/// A timer tick during the event loop: the first is consumed; later ones
/// send a heartbeat once it is due.
pub open spec fn on_tick(w: WorkerView, now: u64) -> (WorkerView, Seq<ActionView>) {
    if w.first_tick_pending {
        (WorkerView { first_tick_pending: false, ..w }, seq![])
    } else if now < w.next_due {
        (w, seq![])
    } else {
        let h = Heartbeat { acknowledged: false, sent_at: Some(now), acked_at: None };
        let beat = ActionView::Transmit(envelope_text(OpCode::Heartbeat, None));
        (
            WorkerView { heartbeat: h, next_due: sat_add(w.next_due, w.interval_ms), ..w },
            if w.heartbeat.acknowledged {
                seq![beat]
            } else {
                seq![ActionView::ZombieWarning, beat]
            },
        )
    }
}

/// One step of the worker.
pub open spec fn step_spec(w: WorkerView, e: EventView, now: u64) -> (WorkerView, Seq<ActionView>) {
    match w.phase {
        Phase::Terminated => (w, seq![]),
        Phase::AwaitingHello => match e {
            EventView::Inbound(f) => on_first_frame(w, f, now),
            EventView::ReadFailed => terminated(w, GatewayErrorView::ReadFailed),
            EventView::WriteFailed => terminated(w, GatewayErrorView::WriteFailed),
            _ => (w, seq![]),
        },
        Phase::Live => match e {
            EventView::Inbound(f) => on_live_frame(w, f, now),
            EventView::ReadFailed => (w, seq![ActionView::Deliver(InboundView::ReadError)]),
            EventView::Command(c) => (w, seq![ActionView::Transmit(c)]),
            EventView::Tick => on_tick(w, now),
            EventView::WriteFailed => terminated(w, GatewayErrorView::WriteFailed),
        },
    }
}

fn sat_add_exec(a: u64, b: u64) -> (r: u64)
    ensures
        r == sat_add(a, b),
{
    if a > u64::MAX - b {
        u64::MAX
    } else {
        a + b
    }
}

impl Worker {
    /// A worker for a session with the given credentials.
    pub fn new(auth: Option<Credentials>) -> (r: Worker)
        ensures
            r@ == worker_start(credentials_view(auth)),
    {
        Worker {
            phase: Phase::AwaitingHello,
            auth,
            interval_ms: 0,
            next_due: 0,
            first_tick_pending: false,
            heartbeat: Heartbeat::new(),
        }
    }

    fn terminate(&mut self, e: GatewayError) -> (r: Vec<Action>)
        ensures
            (final(self)@, actions_view(r@)) == terminated(old(self)@, e@),
    {
        self.phase = Phase::Terminated;
        let mut r = Vec::new();
        r.push(Action::Terminate(e));
        proof {
            assert(actions_view(r@) =~= terminated(old(self)@, e@).1);
        }
        r
    }

    fn first_frame(&mut self, f: &Frame, now: u64) -> (r: Vec<Action>)
        requires
            old(self).phase == Phase::AwaitingHello,
        ensures
            (final(self)@, actions_view(r@)) == on_first_frame(old(self)@, f@, now),
    {
        let env = match decode_frame(f) {
            Ok(env) => env,
            Err(e) => {
                return self.terminate(e);
            },
        };
        let interval = match &env.payload {
            Some(p) => hello_interval(p.as_str()),
            None => None,
        };
        let is_hello = match env.operation() {
            Some(OpCode::Hello) => true,
            _ => false,
        };
        match interval {
            Some(n) if is_hello && n > 0 => {
                self.phase = Phase::Live;
                self.interval_ms = n;
                self.next_due = sat_add_exec(now, n);
                self.first_tick_pending = true;
                let identify = match &self.auth {
                    Some(c) => Some(identify_payload(c.project_id.as_str(), c.token.as_str())),
                    None => None,
                };
                let text = match &identify {
                    Some(i) => encode_envelope(OpCode::Identify, Some(i.as_str())),
                    None => encode_envelope(OpCode::Identify, None),
                };
                let mut r = Vec::new();
                r.push(Action::StartTimer(n));
                r.push(Action::Transmit(text));
                proof {
                    assert(actions_view(r@) =~= on_first_frame(old(self)@, f@, now).1);
                }
                r
            },
            _ => self.terminate(GatewayError::ProtocolViolation),
        }
    }

    fn live_frame(&mut self, f: &Frame, now: u64) -> (r: Vec<Action>)
        requires
            old(self).phase == Phase::Live,
        ensures
            (final(self)@, actions_view(r@)) == on_live_frame(old(self)@, f@, now),
    {
        let env = match decode_frame(f) {
            Ok(env) => env,
            Err(e) => {
                return self.terminate(e);
            },
        };
        let mut r = Vec::new();
        match env.operation() {
            Some(OpCode::HeartbeatAck) => {
                match self.heartbeat.on_ack(now) {
                    Some(l) => r.push(Action::Latency(l)),
                    None => {},
                }
            },
            Some(OpCode::Heartbeat) => {
                let text = match &env.payload {
                    Some(p) => encode_envelope(OpCode::Heartbeat, Some(p.as_str())),
                    None => encode_envelope(OpCode::Heartbeat, None),
                };
                r.push(Action::Transmit(text));
            },
            Some(OpCode::Dispatch) => {
                let p = match env.payload {
                    Some(p) => p,
                    None => String::from_str("null"),
                };
                r.push(Action::Deliver(Inbound::Payload(p)));
            },
            _ => {},
        }
        proof {
            assert(actions_view(r@) =~= on_live_frame(old(self)@, f@, now).1);
        }
        r
    }

    fn tick(&mut self, now: u64) -> (r: Vec<Action>)
        requires
            old(self).phase == Phase::Live,
        ensures
            (final(self)@, actions_view(r@)) == on_tick(old(self)@, now),
    {
        let mut r = Vec::new();
        if self.first_tick_pending {
            self.first_tick_pending = false;
        } else if now >= self.next_due {
            let zombie = self.heartbeat.on_tick(now);
            self.next_due = sat_add_exec(self.next_due, self.interval_ms);
            if zombie {
                r.push(Action::ZombieWarning);
            }
            r.push(Action::Transmit(encode_envelope(OpCode::Heartbeat, None)));
        }
        proof {
            assert(actions_view(r@) =~= on_tick(old(self)@, now).1);
        }
        r
    }

    /// Handles one event at `now` (milliseconds of a monotonic clock) and
    /// returns the actions to perform, in order.
    pub fn step(&mut self, event: Event, now: u64) -> (r: Vec<Action>)
        ensures
            (final(self)@, actions_view(r@)) == step_spec(old(self)@, event@, now),
    {
        let mut r = Vec::new();
        match self.phase {
            Phase::Terminated => {},
            Phase::AwaitingHello => match event {
                Event::Inbound(f) => {
                    r = self.first_frame(&f, now);
                },
                Event::ReadFailed => {
                    r = self.terminate(GatewayError::ReadFailed);
                },
                Event::WriteFailed => {
                    r = self.terminate(GatewayError::WriteFailed);
                },
                _ => {},
            },
            Phase::Live => match event {
                Event::Inbound(f) => {
                    r = self.live_frame(&f, now);
                },
                Event::ReadFailed => {
                    r.push(Action::Deliver(Inbound::ReadError));
                },
                Event::Command(c) => {
                    r.push(Action::Transmit(c));
                },
                Event::Tick => {
                    r = self.tick(now);
                },
                Event::WriteFailed => {
                    r = self.terminate(GatewayError::WriteFailed);
                },
            },
        }
        proof {
            assert(actions_view(r@) =~= step_spec(old(self)@, event@, now).1);
        }
        r
    }
}

} // verus!
