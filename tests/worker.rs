use hop_cli::codec::{Frame, GatewayError};
use hop_cli::heartbeat::Heartbeat;
use hop_cli::worker::{Action, Credentials, Event, Inbound, Phase, Worker};

fn text(s: &str) -> Event {
    Event::Inbound(Frame::Text(s.to_string()))
}

fn live_worker(at: u64) -> Worker {
    let mut w = Worker::new(Some(Credentials {
        project_id: "project_1".to_string(),
        token: "secret".to_string(),
    }));
    w.step(text(r#"{"op":1,"d":{"heartbeat_interval":30000}}"#), at);
    assert_eq!(w.phase, Phase::Live);
    w
}

fn transmitted(actions: &[Action]) -> Vec<String> {
    actions
        .iter()
        .filter_map(|a| match a {
            Action::Transmit(t) => Some(t.clone()),
            _ => None,
        })
        .collect()
}

#[test]
fn handshake_heartbeat_and_ack() {
    let mut w = Worker::new(Some(Credentials {
        project_id: "project_1".to_string(),
        token: "secret".to_string(),
    }));
    let a = w.step(text(r#"{"op":1,"d":{"heartbeat_interval":30000}}"#), 0);
    assert_eq!(a.len(), 2);
    assert!(matches!(a[0], Action::StartTimer(30000)));
    assert_eq!(
        transmitted(&a),
        vec![r#"{"op":2,"d":{"project_id":"project_1","token":"secret"}}"#.to_string()]
    );
    assert_eq!(w.phase, Phase::Live);

    // the tick right after the handshake is consumed
    assert!(w.step(Event::Tick, 0).is_empty());
    // nothing is due before the interval has passed
    assert!(w.step(Event::Tick, 29_999).is_empty());

    let a = w.step(Event::Tick, 30_000);
    assert_eq!(transmitted(&a), vec![r#"{"op":3,"d":null}"#.to_string()]);
    assert!(!w.heartbeat.acknowledged);
    assert_eq!(w.heartbeat.sent_at, Some(30_000));

    let a = w.step(text(r#"{"op":4}"#), 30_042);
    assert_eq!(a.len(), 1);
    match a[0] {
        Action::Latency(l) => {
            assert!(l > 0);
            assert_eq!(l, 42);
        }
        _ => panic!("expected a latency"),
    }
    assert!(w.heartbeat.acknowledged);
    assert_eq!(w.heartbeat.acked_at, Some(30_042));
}

#[test]
fn identify_without_credentials_is_null() {
    let mut w = Worker::new(None);
    let a = w.step(text(r#"{"op":1,"d":{"heartbeat_interval":10}}"#), 5);
    assert_eq!(transmitted(&a), vec![r#"{"op":2,"d":null}"#.to_string()]);
    assert_eq!(w.next_due, 15);
}

#[test]
fn server_heartbeat_is_echoed() {
    let mut w = live_worker(0);
    w.step(Event::Tick, 0);
    w.step(Event::Tick, 30_000);
    let before = w.heartbeat;
    let a = w.step(text(r#"{"op":3,"d":"abc"}"#), 30_001);
    assert_eq!(transmitted(&a), vec![r#"{"op":3,"d":"abc"}"#.to_string()]);
    assert_eq!(a.len(), 1);
    assert_eq!(w.heartbeat, before);
    assert!(!w.heartbeat.acknowledged);
}

#[test]
fn dispatch_is_delivered() {
    let mut w = live_worker(0);
    let a = w.step(text(r#"{"op":0,"d":{"x":1}}"#), 1);
    assert_eq!(a.len(), 1);
    match &a[0] {
        Action::Deliver(Inbound::Payload(p)) => {
            assert_eq!(p, r#"{"x":1}"#);
            let v: serde_json::Value = serde_json::from_str(p).unwrap();
            assert_eq!(v["x"], 1);
        }
        _ => panic!("expected a delivery"),
    }
}

#[test]
fn non_dispatch_is_not_delivered() {
    let mut w = live_worker(0);
    for frame in [r#"{"op":1,"d":{"heartbeat_interval":5}}"#, r#"{"op":2,"d":{}}"#, r#"{"op":4}"#, r#"{"op":7,"d":1}"#] {
        let a = w.step(text(frame), 1);
        assert!(a.iter().all(|x| !matches!(x, Action::Deliver(_))));
    }
}

#[test]
fn close_frame_terminates() {
    let mut w = live_worker(0);
    let a = w.step(Event::Inbound(Frame::Close), 1);
    assert_eq!(a.len(), 1);
    assert!(matches!(a[0], Action::Terminate(GatewayError::ConnectionClosed)));
    assert_eq!(w.phase, Phase::Terminated);
    assert!(w.step(text(r#"{"op":0,"d":1}"#), 2).is_empty());
    assert!(w.step(Event::Tick, 100_000).is_empty());
}

#[test]
fn first_frame_must_be_hello() {
    let mut w = Worker::new(None);
    let a = w.step(text(r#"{"op":0,"d":{"x":1}}"#), 0);
    assert!(matches!(a[0], Action::Terminate(GatewayError::ProtocolViolation)));
    assert_eq!(w.phase, Phase::Terminated);

    let mut w = Worker::new(None);
    let a = w.step(text(r#"{"op":1,"d":{"heartbeat_interval":0}}"#), 0);
    assert!(matches!(a[0], Action::Terminate(GatewayError::ProtocolViolation)));

    let mut w = Worker::new(None);
    let a = w.step(Event::ReadFailed, 0);
    assert!(matches!(a[0], Action::Terminate(GatewayError::ReadFailed)));
}

#[test]
fn read_failure_is_reported_and_session_goes_on() {
    let mut w = live_worker(0);
    let a = w.step(Event::ReadFailed, 1);
    assert!(matches!(a[0], Action::Deliver(Inbound::ReadError)));
    assert_eq!(w.phase, Phase::Live);
}

#[test]
fn command_is_written_verbatim() {
    let mut w = live_worker(0);
    let a = w.step(Event::Command(r#"{"op":0,"d":"sub"}"#.to_string()), 1);
    assert_eq!(transmitted(&a), vec![r#"{"op":0,"d":"sub"}"#.to_string()]);
}

#[test]
fn write_failure_terminates() {
    let mut w = live_worker(0);
    let a = w.step(Event::WriteFailed, 1);
    assert!(matches!(a[0], Action::Terminate(GatewayError::WriteFailed)));
    assert_eq!(w.phase, Phase::Terminated);
}

#[test]
fn unacknowledged_heartbeat_warns() {
    let mut w = live_worker(0);
    w.step(Event::Tick, 0);
    w.step(Event::Tick, 30_000);
    let a = w.step(Event::Tick, 60_000);
    assert!(matches!(a[0], Action::ZombieWarning));
    assert_eq!(transmitted(&a), vec![r#"{"op":3,"d":null}"#.to_string()]);
    assert_eq!(w.next_due, 90_000);
}

#[test]
fn heartbeat_bookkeeping() {
    let mut h = Heartbeat::new();
    assert!(h.acknowledged);
    assert_eq!(h.on_ack(5), None);
    assert!(!h.on_tick(10));
    assert_eq!(h.on_ack(25), Some(15));
    assert!(!h.on_tick(40));
    assert!(h.on_tick(80));
}
