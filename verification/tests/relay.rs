use rs_tcp::relay::{
    accept_step, datagram_side_poll, return_relay_continues, session_step, stream_side_poll,
    AcceptAction, AcceptOutcome, ClientRelay, DatagramAction, LoopAction, PeerAddr,
    ReturnOutcome, SessionEvent,
};

fn v4(ip: u32, port: u16) -> PeerAddr {
    PeerAddr { is_v6: false, ip: ip as u128, port, flowinfo: 0, scope_id: 0 }
}

#[test]
fn client_pins_first_peer() {
    let mut r = ClientRelay::new();
    assert_eq!(r.peer(), None);
    let a = v4(0x7f00_0001, 8980);
    let b = v4(0x7f00_0001, 8981);
    assert_eq!(r.on_datagram(a), DatagramAction::StartRelayAndForward);
    assert_eq!(r.peer(), Some(a));
    assert_eq!(r.on_datagram(a), DatagramAction::Forward);
    assert_eq!(r.on_datagram(b), DatagramAction::Reject);
    assert_eq!(r.peer(), Some(a));
    assert_eq!(r.on_datagram(a), DatagramAction::Forward);
}

#[test]
fn client_v4_and_v6_differ() {
    let mut r = ClientRelay::new();
    r.on_datagram(v4(1, 1));
    let six = PeerAddr { is_v6: true, ip: 1, port: 1, flowinfo: 0, scope_id: 0 };
    assert_eq!(r.on_datagram(six), DatagramAction::Reject);
}

#[test]
fn client_return_relay() {
    assert!(return_relay_continues(ReturnOutcome::Delivered));
    assert!(!return_relay_continues(ReturnOutcome::TimedOut));
    assert!(!return_relay_continues(ReturnOutcome::ReadFailed));
    assert!(!return_relay_continues(ReturnOutcome::SendFailed));
}

#[test]
fn server_accept_loop() {
    assert_eq!(accept_step(AcceptOutcome::AcceptFailed), AcceptAction::NextStream);
    assert_eq!(accept_step(AcceptOutcome::TargetUnreachable), AcceptAction::CloseAndShutDown);
    assert_eq!(accept_step(AcceptOutcome::Connected), AcceptAction::Serve);
}

#[test]
fn server_session_stop_flag() {
    assert_eq!(stream_side_poll(false), LoopAction::Continue);
    assert_eq!(datagram_side_poll(false), LoopAction::Continue);
    assert_eq!(session_step(false, SessionEvent::DatagramSent), (false, LoopAction::Continue));
    assert_eq!(session_step(false, SessionEvent::DatagramSendFailed), (false, LoopAction::End));
    assert_eq!(session_step(false, SessionEvent::DatagramRecvFailed), (false, LoopAction::Continue));
    assert_eq!(session_step(false, SessionEvent::FrameWritten), (false, LoopAction::Continue));
    let (stopped, action) = session_step(false, SessionEvent::StreamReadFailed);
    assert_eq!((stopped, action), (true, LoopAction::End));
    assert_eq!(datagram_side_poll(stopped), LoopAction::CloseAndEnd);
    let (stopped, action) = session_step(false, SessionEvent::DatagramWaitTimedOut);
    assert_eq!((stopped, action), (true, LoopAction::CloseAndEnd));
    assert_eq!(stream_side_poll(stopped), LoopAction::End);
    assert_eq!(session_step(true, SessionEvent::DatagramSent), (true, LoopAction::Continue));
}
