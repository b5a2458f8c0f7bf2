use showmarket::handlers::ws::{is_closed, session_step, SessionAction, SessionEvent, SessionState};
use showmarket::models::price::PriceUpdate;

fn sample(ts_ms: i64) -> PriceUpdate {
    PriceUpdate { symbol: "BTCUSDT".to_string(), price_bits: 7.5f64.to_bits(), ts_ms }
}

#[test]
fn join_ignores_everything_but_the_snapshot() {
    let events = vec![
        SessionEvent::Tick(sample(1)),
        SessionEvent::Lagged(3),
        SessionEvent::HubClosed,
        SessionEvent::SendFailed,
        SessionEvent::PeerClosed,
        SessionEvent::PeerFrame,
        SessionEvent::PeerError,
    ];
    for event in events {
        assert_eq!(
            session_step(SessionState::Join, event),
            (SessionState::Join, SessionAction::Wait)
        );
    }
}

#[test]
fn streaming_forwards_ticks() {
    assert_eq!(
        session_step(SessionState::Streaming, SessionEvent::Tick(sample(9))),
        (SessionState::Streaming, SessionAction::Forward(sample(9)))
    );
}

#[test]
fn streaming_keeps_going_on_lag_and_peer_frames() {
    for event in vec![SessionEvent::Lagged(0), SessionEvent::Lagged(u64::MAX), SessionEvent::PeerFrame] {
        assert_eq!(
            session_step(SessionState::Streaming, event),
            (SessionState::Streaming, SessionAction::Wait)
        );
    }
}

#[test]
fn streaming_ends_on_close_error_and_failed_send() {
    let events = vec![
        SessionEvent::HubClosed,
        SessionEvent::SendFailed,
        SessionEvent::PeerClosed,
        SessionEvent::PeerError,
    ];
    for event in events {
        let (next, action) = session_step(SessionState::Streaming, event);
        assert_eq!(next, SessionState::Closed);
        assert_eq!(action, SessionAction::Release);
        assert!(is_closed(next));
    }
}

#[test]
fn closed_is_terminal() {
    let events = vec![
        SessionEvent::Snapshot(Some(sample(1))),
        SessionEvent::Snapshot(None),
        SessionEvent::Tick(sample(2)),
        SessionEvent::Lagged(1),
        SessionEvent::HubClosed,
        SessionEvent::SendFailed,
        SessionEvent::PeerClosed,
        SessionEvent::PeerFrame,
        SessionEvent::PeerError,
    ];
    for event in events {
        assert_eq!(
            session_step(SessionState::Closed, event),
            (SessionState::Closed, SessionAction::Release)
        );
    }
    assert!(!is_closed(SessionState::Join));
    assert!(!is_closed(SessionState::Streaming));
}

#[test]
fn a_run_of_ticks_is_forwarded_in_order() {
    let mut state = SessionState::Streaming;
    let mut sent = Vec::new();
    for i in 0..20 {
        let (next, action) = session_step(state, SessionEvent::Tick(sample(i)));
        state = next;
        match action {
            SessionAction::Forward(t) => sent.push(t),
            other => panic!("unexpected action {:?}", other),
        }
    }
    assert_eq!(state, SessionState::Streaming);
    let expected: Vec<PriceUpdate> = (0..20).map(sample).collect();
    assert_eq!(sent, expected);
}
