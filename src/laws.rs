//! Properties of the session that hold over every input.

use vstd::prelude::*;
use crate::codec::{decode_frame_spec, envelope_text, hello_interval_spec, payload_text, FrameView};
use crate::envelope::{spec_op_of, OpCode};
use crate::heartbeat::{elapsed, fresh_heartbeat};
use crate::session::{close_spec, connect_spec, new_client, send_spec, ClientView, SendError};
use crate::worker::{
    identify_of, sat_add, step_spec, worker_start, ActionView, EventView, InboundView, Phase,
    WorkerView,
};

verus! {

/// After a Hello at `t` with interval `n`, the session is live, the timer is
/// armed with `n` and Identify goes out; the tick that follows the handshake
/// is consumed without a transmission, and so is every tick before `t + n`.
pub proof fn lemma_first_heartbeat_after_interval(w: WorkerView, f: FrameView, t: u64, now1: u64, now2: u64)
    requires
        w.phase == Phase::AwaitingHello,
        step_spec(w, EventView::Inbound(f), t).0.phase == Phase::Live,
    ensures
        ({
            let (w1, a1) = step_spec(w, EventView::Inbound(f), t);
            let n = w1.interval_ms;
            let env = decode_frame_spec(f)->Ok_0;
            &&& decode_frame_spec(f) is Ok
            &&& spec_op_of(env.code) == Some(OpCode::Hello)
            &&& env.payload is Some
            &&& hello_interval_spec(env.payload->0) == Some(n)
            &&& n > 0
            &&& a1 == seq![
                ActionView::StartTimer(n),
                ActionView::Transmit(envelope_text(OpCode::Identify, identify_of(w.auth))),
            ]
            &&& w1.heartbeat == w.heartbeat
            &&& step_spec(w1, EventView::Tick, now1).1 == Seq::<ActionView>::empty()
            &&& (now2 < sat_add(t, n) ==> step_spec(step_spec(w1, EventView::Tick, now1).0, EventView::Tick, now2).1
                == Seq::<ActionView>::empty())
        }),
{
    let (w1, a1) = step_spec(w, EventView::Inbound(f), t);
    assert(a1 =~= seq![
        ActionView::StartTimer(w1.interval_ms),
        ActionView::Transmit(envelope_text(OpCode::Identify, identify_of(w.auth))),
    ]);
    assert(step_spec(w1, EventView::Tick, now1).1 =~= Seq::<ActionView>::empty());
}

/// On a live session, events other than a tick leave the heartbeat timer as
/// it was: no heartbeat goes out earlier because of them.
pub proof fn lemma_other_events_keep_timer(w: WorkerView, e: EventView, now: u64)
    requires
        w.phase == Phase::Live,
        !(e is Tick),
    ensures
        step_spec(w, e, now).0.next_due == w.next_due,
        step_spec(w, e, now).0.first_tick_pending == w.first_tick_pending,
        step_spec(w, e, now).0.interval_ms == w.interval_ms,
{
}

/// A HeartbeatAck marks the heartbeat acknowledged at `now` and reports the
/// latency `now - sent_at` of the heartbeat that was sent.
pub proof fn lemma_ack_records_latency(w: WorkerView, f: FrameView, now: u64)
    requires
        w.phase == Phase::Live,
        decode_frame_spec(f) is Ok,
        spec_op_of(decode_frame_spec(f)->Ok_0.code) == Some(OpCode::HeartbeatAck),
        w.heartbeat.sent_at is Some,
        now >= w.heartbeat.sent_at->0,
    ensures
        ({
            let (w1, a) = step_spec(w, EventView::Inbound(f), now);
            &&& w1.heartbeat.acknowledged
            &&& w1.heartbeat.acked_at == Some(now)
            &&& w1.heartbeat.sent_at == w.heartbeat.sent_at
            &&& a == seq![ActionView::Latency((now - w.heartbeat.sent_at->0) as u64)]
        }),
{
    let s = w.heartbeat.sent_at->0;
    assert(elapsed(s, now) == (now - s) as u64);
    assert(step_spec(w, EventView::Inbound(f), now).1 =~= seq![ActionView::Latency((now - s) as u64)]);
}

/// A payload reaches the inbound queue exactly when a Dispatch frame arrives
/// on a live session, and it is that frame's payload; no other operation is
/// ever delivered.
pub proof fn lemma_only_dispatch_delivered(w: WorkerView, e: EventView, now: u64)
    ensures
        ({
            let a = step_spec(w, e, now).1;
            &&& forall|i: int, p: Seq<char>| 0 <= i < a.len() && a[i] == ActionView::Deliver(InboundView::Payload(p))
                ==> (e is Inbound && w.phase == Phase::Live
                    && decode_frame_spec(e->Inbound_0) is Ok
                    && spec_op_of(decode_frame_spec(e->Inbound_0)->Ok_0.code) == Some(OpCode::Dispatch)
                    && p == payload_text(decode_frame_spec(e->Inbound_0)->Ok_0.payload))
            &&& (e is Inbound && w.phase == Phase::Live
                && decode_frame_spec(e->Inbound_0) is Ok
                && spec_op_of(decode_frame_spec(e->Inbound_0)->Ok_0.code) == Some(OpCode::Dispatch))
                ==> a == seq![ActionView::Deliver(InboundView::Payload(
                    payload_text(decode_frame_spec(e->Inbound_0)->Ok_0.payload)))]
        }),
{
}

/// A Heartbeat from the remote is answered at once with a Heartbeat that
/// carries the same tag, and the client's own bookkeeping is untouched.
pub proof fn lemma_server_heartbeat_echoed(w: WorkerView, f: FrameView, now: u64)
    requires
        w.phase == Phase::Live,
        decode_frame_spec(f) is Ok,
        spec_op_of(decode_frame_spec(f)->Ok_0.code) == Some(OpCode::Heartbeat),
    ensures
        step_spec(w, EventView::Inbound(f), now) == (w, seq![
            ActionView::Transmit(envelope_text(OpCode::Heartbeat, decode_frame_spec(f)->Ok_0.payload)),
        ]),
{
}

/// `send_message` is refused with `NotConnected` on a new handle and on any
/// handle after `close`.
pub proof fn lemma_send_needs_connection(c: ClientView, message: Seq<char>)
    ensures
        send_spec(new_client(), message) == Err::<Seq<char>, SendError>(SendError::NotConnected),
        send_spec(close_spec(c), message) == Err::<Seq<char>, SendError>(SendError::NotConnected),
{
}

/// `close` followed by `connect` succeeds and starts the same session as a
/// new handle would, with fresh heartbeat bookkeeping.
pub proof fn lemma_reconnect_is_fresh(c: ClientView)
    ensures
        connect_spec(close_spec(c)) == connect_spec(new_client()),
        connect_spec(close_spec(c)).1 is Ok,
        connect_spec(close_spec(c)).1->Ok_0 == worker_start(None),
        connect_spec(close_spec(c)).1->Ok_0.heartbeat == fresh_heartbeat(),
{
}

} // verus!
