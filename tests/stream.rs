use binance_feed::supervisor::{ConnectionState, Frame, StreamAction, StreamEvent, Supervisor};

fn connected() -> Supervisor {
    let mut s = Supervisor::new();
    assert_eq!(s.step(StreamEvent::Opened), StreamAction::ReadNext);
    assert_eq!(s.state, ConnectionState::Connected);
    s
}

#[test]
fn peer_close_leads_to_a_new_connect() {
    let mut s = connected();
    assert_eq!(s.step(StreamEvent::Received(Frame::Close)), StreamAction::Disconnect);
    assert_eq!(s.state, ConnectionState::Closing);
    assert_eq!(s.step(StreamEvent::Disconnected), StreamAction::Connect);
    assert_eq!(s.state, ConnectionState::Connecting);
}

#[test]
fn read_error_and_end_reconnect() {
    for e in [StreamEvent::ReadError, StreamEvent::Ended] {
        let mut s = connected();
        assert_eq!(s.step(e), StreamAction::Disconnect);
        assert_eq!(s.step(StreamEvent::Disconnected), StreamAction::Connect);
    }
}

#[test]
fn failed_connect_is_retried_forever() {
    let mut s = Supervisor::new();
    for _ in 0..100 {
        assert_eq!(s.step(StreamEvent::ConnectFailed), StreamAction::Connect);
        assert_eq!(s.state, ConnectionState::Connecting);
    }
    assert_eq!(s.step(StreamEvent::Opened), StreamAction::ReadNext);
}

#[test]
fn ping_is_answered_with_its_payload() {
    let mut s = connected();
    assert_eq!(s.step(StreamEvent::Received(Frame::Ping(vec![1, 2, 3]))), StreamAction::SendPong(vec![1, 2, 3]));
    assert_eq!(s.state, ConnectionState::Connected);
}

#[test]
fn frames_are_handed_on_in_order() {
    let mut s = connected();
    assert_eq!(s.step(StreamEvent::Received(Frame::Text("a".to_string()))), StreamAction::HandleText("a".to_string()));
    assert_eq!(s.step(StreamEvent::Received(Frame::Binary(vec![7]))), StreamAction::HandleBinary(vec![7]));
    assert_eq!(s.step(StreamEvent::Received(Frame::Pong(vec![]))), StreamAction::ReadNext);
    assert_eq!(s.step(StreamEvent::Received(Frame::Other)), StreamAction::ReadNext);
    assert_eq!(s.state, ConnectionState::Connected);
}

#[test]
fn closing_waits_for_the_drop() {
    let mut s = connected();
    s.step(StreamEvent::ReadError);
    assert_eq!(s.step(StreamEvent::Received(Frame::Text("late".to_string()))), StreamAction::Disconnect);
    assert_eq!(s.state, ConnectionState::Closing);
}
