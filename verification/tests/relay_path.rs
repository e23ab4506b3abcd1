use wsproxy::relay::{Frame, Pump, PumpState, RecvEvent, RelayAction, Session};

fn frame_payload(f: &Frame) -> &[u8] {
    match f {
        Frame::Text(p) | Frame::Binary(p) | Frame::Ping(p) | Frame::Pong(p) => p.as_slice(),
        Frame::Close(_) => &[],
    }
}

/// Feed one frame through a pump with a successful send; return the
/// forwarded frame.
fn relay_one(p: &mut Pump, f: Frame) -> Frame {
    let action = p.on_recv(RecvEvent::Frame(f));
    let forwarded = match action {
        RelayAction::Forward(g) => g,
        _ => panic!("a received frame must be forwarded"),
    };
    match p.on_send_result(true) {
        RelayAction::Continue => {}
        _ => panic!("after a successful send the pump reads on"),
    }
    forwarded
}

#[test]
fn frames_are_forwarded_verbatim_and_in_order() {
    let mut p = Pump::new();
    let inputs: Vec<Frame> = vec![
        Frame::Text(b"first".to_vec()),
        Frame::Binary(vec![0, 1, 2]),
        Frame::Text(b"third".to_vec()),
    ];
    let mut outputs: Vec<Frame> = Vec::new();
    for f in inputs {
        outputs.push(relay_one(&mut p, f));
    }
    assert_eq!(frame_payload(&outputs[0]), b"first");
    assert!(matches!(outputs[0], Frame::Text(_)));
    assert_eq!(frame_payload(&outputs[1]), &[0, 1, 2]);
    assert!(matches!(outputs[1], Frame::Binary(_)));
    assert_eq!(frame_payload(&outputs[2]), b"third");
    assert!(matches!(outputs[2], Frame::Text(_)));
    assert_eq!(p.state, PumpState::Reading);
}

#[test]
fn source_close_triggers_a_close_of_the_destination() {
    let mut p = Pump::new();
    relay_one(&mut p, Frame::Text(b"hello".to_vec()));
    let action = p.on_recv(RecvEvent::Closed);
    assert!(matches!(action, RelayAction::SendClose));
    assert_eq!(p.state, PumpState::Closing);
    p.on_close_attempted();
    assert_eq!(p.state, PumpState::Done);
}

#[test]
fn read_error_triggers_a_close_of_the_destination() {
    let mut p = Pump::new();
    let action = p.on_recv(RecvEvent::Error);
    assert!(matches!(action, RelayAction::SendClose));
    assert_eq!(p.state, PumpState::Closing);
    p.on_close_attempted();
    assert_eq!(p.state, PumpState::Done);
}

#[test]
fn failed_send_terminates_the_direction_without_retry() {
    let mut p = Pump::new();
    let action = p.on_recv(RecvEvent::Frame(Frame::Text(b"lost".to_vec())));
    assert!(matches!(action, RelayAction::Forward(_)));
    let next = p.on_send_result(false);
    assert!(matches!(next, RelayAction::SendClose));
    assert_eq!(p.state, PumpState::Closing);
    p.on_close_attempted();
    assert_eq!(p.state, PumpState::Done);
}

#[test]
fn close_frames_are_relayed_like_any_frame() {
    let mut p = Pump::new();
    let action = p.on_recv(RecvEvent::Frame(Frame::Close(None)));
    match action {
        RelayAction::Forward(Frame::Close(None)) => {}
        _ => panic!("a close frame from the source is forwarded verbatim"),
    }
}

#[test]
fn concurrent_sessions_never_cross_talk() {
    let mut sessions: Vec<Session> = (0..4).map(|_| Session::new()).collect();
    for (i, s) in sessions.iter_mut().enumerate() {
        let tag = format!("client-{}", i).into_bytes();
        let out = relay_one(&mut s.client_to_backend, Frame::Text(tag.clone()));
        assert_eq!(frame_payload(&out), tag.as_slice());
        let echo = format!("backend-{}", i).into_bytes();
        let back = relay_one(&mut s.backend_to_client, Frame::Text(echo.clone()));
        assert_eq!(frame_payload(&back), echo.as_slice());
    }
    for s in &sessions {
        assert_eq!(s.client_to_backend.state, PumpState::Reading);
        assert_eq!(s.backend_to_client.state, PumpState::Reading);
    }
}

#[test]
fn session_finishes_when_either_direction_ends() {
    let mut s = Session::new();
    let action = s.backend_to_client.on_recv(RecvEvent::Closed);
    assert!(matches!(action, RelayAction::SendClose));
    s.backend_to_client.on_close_attempted();
    assert_eq!(s.backend_to_client.state, PumpState::Done);
    assert_eq!(s.client_to_backend.state, PumpState::Reading);
}
