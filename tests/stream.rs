use smart_trailer::stream::{Phase, StreamAction, StreamEvent, StreamSession, TransportOp};

fn delivering(topic: &str) -> StreamSession {
    let mut s = StreamSession::new(topic.to_string());
    assert!(matches!(s.step(StreamEvent::Start), StreamAction::Connect));
    match s.step(StreamEvent::ConnectDone(Ok(()))) {
        StreamAction::Subscribe(t) => assert_eq!(t, topic),
        _ => panic!("expected a subscribe"),
    }
    assert!(matches!(s.step(StreamEvent::SubscribeDone(Ok(()))), StreamAction::Receive));
    assert_eq!(s.phase, Phase::Delivering);
    s
}

#[test]
fn messages_are_delivered() {
    let mut s = delivering("T");
    match s.step(StreamEvent::Message("w=1500".to_string())) {
        StreamAction::Deliver(m) => assert_eq!(m, "w=1500"),
        _ => panic!("expected a delivery"),
    }
    assert!(matches!(s.step(StreamEvent::NoMessage { connected: true }), StreamAction::Receive));
}

#[test]
fn resumes_after_one_reconnect() {
    let mut s = delivering("T");
    assert!(matches!(s.step(StreamEvent::NoMessage { connected: false }), StreamAction::Reconnect));
    match s.step(StreamEvent::ReconnectDone(Ok(()))) {
        StreamAction::Subscribe(t) => assert_eq!(t, "T"),
        _ => panic!("expected a resubscribe"),
    }
    assert!(matches!(s.step(StreamEvent::SubscribeDone(Ok(()))), StreamAction::Receive));
    match s.step(StreamEvent::Message("m".to_string())) {
        StreamAction::Deliver(m) => assert_eq!(m, "m"),
        _ => panic!("expected a delivery"),
    }
    assert_eq!(s.topic, "T");
}

#[test]
fn failed_reconnect_is_terminal() {
    let mut s = delivering("T");
    assert!(matches!(s.step(StreamEvent::NoMessage { connected: false }), StreamAction::Reconnect));
    match s.step(StreamEvent::ReconnectDone(Err("refused".to_string()))) {
        StreamAction::Finish(Err(e)) => {
            assert_eq!(e.op, TransportOp::Reconnect);
            assert_eq!(e.detail, "refused");
        }
        _ => panic!("expected a terminal error"),
    }
    assert_eq!(s.phase, Phase::Finished);
    assert!(matches!(s.step(StreamEvent::NoMessage { connected: false }), StreamAction::Wait));
    assert!(matches!(s.step(StreamEvent::Shutdown), StreamAction::Wait));
}

#[test]
fn failed_resubscribe_is_reported_and_delivery_goes_on() {
    let mut s = delivering("T");
    s.step(StreamEvent::NoMessage { connected: false });
    s.step(StreamEvent::ReconnectDone(Ok(())));
    match s.step(StreamEvent::SubscribeDone(Err("denied".to_string()))) {
        StreamAction::Report(e) => assert_eq!(e.op, TransportOp::Subscribe),
        _ => panic!("expected a report"),
    }
    assert_eq!(s.phase, Phase::Delivering);
}

#[test]
fn failed_connect_is_terminal() {
    let mut s = StreamSession::new("T".to_string());
    s.step(StreamEvent::Start);
    match s.step(StreamEvent::ConnectDone(Err("no broker".to_string()))) {
        StreamAction::Finish(Err(e)) => assert_eq!(e.op, TransportOp::Connect),
        _ => panic!("expected a terminal error"),
    }
}

#[test]
fn shutdown_tears_down_once() {
    let mut s = delivering("T");
    match s.step(StreamEvent::Shutdown) {
        StreamAction::Unsubscribe(t) => assert_eq!(t, "T"),
        _ => panic!("expected an unsubscribe"),
    }
    assert!(matches!(s.step(StreamEvent::Shutdown), StreamAction::Wait));
    assert!(matches!(s.step(StreamEvent::NoMessage { connected: false }), StreamAction::Wait));
    assert!(matches!(s.step(StreamEvent::UnsubscribeDone(Ok(()))), StreamAction::Disconnect));
    assert!(matches!(s.step(StreamEvent::Shutdown), StreamAction::Wait));
    assert!(matches!(s.step(StreamEvent::DisconnectDone(Ok(()))), StreamAction::Finish(Ok(()))));
    assert!(!s.connected);
    assert!(matches!(s.step(StreamEvent::Shutdown), StreamAction::Wait));
}

#[test]
fn shutdown_during_connect_tears_down_after_it() {
    let mut s = StreamSession::new("T".to_string());
    s.step(StreamEvent::Start);
    assert!(matches!(s.step(StreamEvent::Shutdown), StreamAction::Wait));
    match s.step(StreamEvent::ConnectDone(Ok(()))) {
        StreamAction::Unsubscribe(t) => assert_eq!(t, "T"),
        _ => panic!("expected an unsubscribe"),
    }
}

#[test]
fn shutdown_before_start_finishes_cleanly() {
    let mut s = StreamSession::new("T".to_string());
    assert!(matches!(s.step(StreamEvent::Shutdown), StreamAction::Finish(Ok(()))));
    assert_eq!(s.phase, Phase::Finished);
}

#[test]
fn failed_unsubscribe_is_reported() {
    let mut s = delivering("T");
    s.step(StreamEvent::Shutdown);
    match s.step(StreamEvent::UnsubscribeDone(Err("gone".to_string()))) {
        StreamAction::Finish(Err(e)) => assert_eq!(e.op, TransportOp::Unsubscribe),
        _ => panic!("expected a terminal error"),
    }
}

#[test]
fn failed_disconnect_is_reported() {
    let mut s = delivering("T");
    s.step(StreamEvent::Shutdown);
    s.step(StreamEvent::UnsubscribeDone(Ok(())));
    match s.step(StreamEvent::DisconnectDone(Err("gone".to_string()))) {
        StreamAction::Finish(Err(e)) => assert_eq!(e.op, TransportOp::Disconnect),
        _ => panic!("expected a terminal error"),
    }
}
