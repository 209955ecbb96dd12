//! The decisions of the two ends of the tunnel, taken on plain values so that
//! the ends can run the I/O around them.
//!
//! The client relays datagrams from one UDP peer into a stream: it pins the
//! first peer it hears from and refuses any other. The server relays a stream
//! into a UDP socket with two loops, one per direction, that share a stop flag.

use vstd::prelude::*;

verus! {

/// A socket address as the tunnel compares it: the IP family, the address as
/// a 128-bit number (an IPv4 address in the low 32 bits), the port, and for
/// IPv6 the flow information and scope id.
#[derive(Debug, Clone, Copy, PartialEq, Eq, Structural)]
pub struct PeerAddr {
    pub is_v6: bool,
    pub ip: u128,
    pub port: u16,
    pub flowinfo: u32,
    pub scope_id: u32,
}

/// What the client does with a datagram.
#[derive(Debug, Clone, Copy, PartialEq, Eq, Structural)]
pub enum DatagramAction {
    /// The first datagram: start relaying the stream back to its sender, then forward it.
    StartRelayAndForward,
    /// A datagram from the pinned peer: forward it into the stream.
    Forward,
    /// A datagram from another peer: stop the client with an error.
    Reject,
}

/// The client's state: the peer it relays for, once it has heard from one.
pub struct ClientRelay {
    peer: Option<PeerAddr>,
}

impl ClientRelay {
    /// The peer that the client relays for.
    pub closed spec fn pinned(&self) -> Option<PeerAddr> {
        self.peer
    }

    /// A client that has heard from no peer yet.
    pub fn new() -> (r: ClientRelay)
        ensures
            r.pinned() == None::<PeerAddr>,
    {
        ClientRelay { peer: None }
    }

    /// The peer that the client relays for, if it has heard from one.
    pub fn peer(&self) -> (p: Option<PeerAddr>)
        ensures
            p == self.pinned(),
    {
        self.peer
    }

    /// Decides what to do with a datagram from `from`: the first datagram pins
    /// its sender and starts the relay; later ones are forwarded where they
    /// come from the pinned peer and refused otherwise. The pinned peer never
    /// changes once set.
    pub fn on_datagram(&mut self, from: PeerAddr) -> (action: DatagramAction)
        ensures
            final(self).pinned() == Some(match old(self).pinned() {
                None => from,
                Some(p) => p,
            }),
            action == match old(self).pinned() {
                None => DatagramAction::StartRelayAndForward,
                Some(p) => if p == from {
                    DatagramAction::Forward
                } else {
                    DatagramAction::Reject
                },
            },
    {
        match self.peer {
            None => {
                self.peer = Some(from);
                DatagramAction::StartRelayAndForward
            },
            Some(p) => {
                if p == from {
                    DatagramAction::Forward
                } else {
                    DatagramAction::Reject
                }
            },
        }
    }
}

/// How one round of the client's relay from the stream back to the peer ended.
#[derive(Debug, Clone, Copy, PartialEq, Eq, Structural)]
pub enum ReturnOutcome {
    /// No frame arrived within the wait.
    TimedOut,
    /// Reading a frame failed.
    ReadFailed,
    /// Sending the datagram to the peer failed.
    SendFailed,
    /// The frame was read and sent to the peer.
    Delivered,
}

/// Whether the client's relay back to the peer goes on after a round: only
/// where the round delivered its frame. Once it stops, the client exits.
pub fn return_relay_continues(outcome: ReturnOutcome) -> (go_on: bool)
    ensures
        go_on == (outcome == ReturnOutcome::Delivered),
{
    match outcome {
        ReturnOutcome::Delivered => true,
        _ => false,
    }
}

/// What the server's accept loop met.
#[derive(Debug, Clone, Copy, PartialEq, Eq, Structural)]
pub enum AcceptOutcome {
    /// Accepting a stream failed.
    AcceptFailed,
    /// A stream was accepted, but connecting its UDP socket to the target failed.
    TargetUnreachable,
    /// A stream was accepted and its UDP socket connected.
    Connected,
}

/// What the server's accept loop does next.
#[derive(Debug, Clone, Copy, PartialEq, Eq, Structural)]
pub enum AcceptAction {
    /// Wait for the next stream.
    NextStream,
    /// Close the stream and stop serving.
    CloseAndShutDown,
    /// Relay the stream, and wait for the next one.
    Serve,
}

/// The server's accept loop: a failed accept is skipped, an unreachable target
/// ends the server, a connected stream is served.
pub fn accept_step(outcome: AcceptOutcome) -> (action: AcceptAction)
    ensures
        action == match outcome {
            AcceptOutcome::AcceptFailed => AcceptAction::NextStream,
            AcceptOutcome::TargetUnreachable => AcceptAction::CloseAndShutDown,
            AcceptOutcome::Connected => AcceptAction::Serve,
        },
{
    match outcome {
        AcceptOutcome::AcceptFailed => AcceptAction::NextStream,
        AcceptOutcome::TargetUnreachable => AcceptAction::CloseAndShutDown,
        AcceptOutcome::Connected => AcceptAction::Serve,
    }
}

/// What one round of a server session's loops met. The stream side reads
/// frames and sends them as datagrams; the datagram side receives datagrams
/// and writes them as frames.
#[derive(Debug, Clone, Copy, PartialEq, Eq, Structural)]
pub enum SessionEvent {
    /// Stream side: reading a frame failed.
    StreamReadFailed,
    /// Stream side: sending the datagram failed.
    DatagramSendFailed,
    /// Stream side: the frame was sent as a datagram.
    DatagramSent,
    /// Datagram side: no datagram arrived within the wait.
    DatagramWaitTimedOut,
    /// Datagram side: receiving a datagram failed.
    DatagramRecvFailed,
    /// Datagram side: a datagram was received and written to the stream.
    FrameWritten,
}

/// What a loop of a server session does next.
#[derive(Debug, Clone, Copy, PartialEq, Eq, Structural)]
pub enum LoopAction {
    /// Go on with the next round.
    Continue,
    /// End the loop.
    End,
    /// Close the stream's write half and end the loop.
    CloseAndEnd,
}

/// The stop flag and the action after an event, from the stop flag before it.
pub open spec fn session_step_spec(stopped: bool, event: SessionEvent) -> (bool, LoopAction) {
    match event {
        SessionEvent::StreamReadFailed => (true, LoopAction::End),
        SessionEvent::DatagramSendFailed => (stopped, LoopAction::End),
        SessionEvent::DatagramSent => (stopped, LoopAction::Continue),
        SessionEvent::DatagramWaitTimedOut => (true, LoopAction::CloseAndEnd),
        SessionEvent::DatagramRecvFailed => (stopped, LoopAction::Continue),
        SessionEvent::FrameWritten => (stopped, LoopAction::Continue),
    }
}

/// What the stream side does at the start of a round.
pub open spec fn stream_side_poll_spec(stopped: bool) -> LoopAction {
    if stopped {
        LoopAction::End
    } else {
        LoopAction::Continue
    }
}

/// What the datagram side does at the start of a round.
pub open spec fn datagram_side_poll_spec(stopped: bool) -> LoopAction {
    if stopped {
        LoopAction::CloseAndEnd
    } else {
        LoopAction::Continue
    }
}

/// The stream side's check at the start of a round: it ends once the session is stopped.
pub fn stream_side_poll(stopped: bool) -> (action: LoopAction)
    ensures
        action == stream_side_poll_spec(stopped),
        stopped ==> action == LoopAction::End,
        !stopped ==> action == LoopAction::Continue,
{
    if stopped {
        LoopAction::End
    } else {
        LoopAction::Continue
    }
}

/// The datagram side's check at the start of a round: once the session is
/// stopped it closes the stream's write half and ends.
pub fn datagram_side_poll(stopped: bool) -> (action: LoopAction)
    ensures
        action == datagram_side_poll_spec(stopped),
        stopped ==> action == LoopAction::CloseAndEnd,
        !stopped ==> action == LoopAction::Continue,
{
    if stopped {
        LoopAction::CloseAndEnd
    } else {
        LoopAction::Continue
    }
}

/// A session's reaction to what a round met: the new stop flag and what the
/// loop does. A failed stream read stops the session; a timed-out wait for a
/// datagram stops it and closes the stream; a failed datagram send ends only
/// the stream side; everything else goes on.
pub fn session_step(stopped: bool, event: SessionEvent) -> (res: (bool, LoopAction))
    ensures
        res == session_step_spec(stopped, event),
        res.0 == (stopped || event == SessionEvent::StreamReadFailed || event
            == SessionEvent::DatagramWaitTimedOut),
        (res.1 == LoopAction::CloseAndEnd) <==> event == SessionEvent::DatagramWaitTimedOut,
        (res.1 == LoopAction::End) <==> (event == SessionEvent::StreamReadFailed || event
            == SessionEvent::DatagramSendFailed),
        event == SessionEvent::DatagramWaitTimedOut ==> res == (true, LoopAction::CloseAndEnd),
{
    match event {
        SessionEvent::StreamReadFailed => (true, LoopAction::End),
        SessionEvent::DatagramSendFailed => (stopped, LoopAction::End),
        SessionEvent::DatagramSent => (stopped, LoopAction::Continue),
        SessionEvent::DatagramWaitTimedOut => (true, LoopAction::CloseAndEnd),
        SessionEvent::DatagramRecvFailed => (stopped, LoopAction::Continue),
        SessionEvent::FrameWritten => (stopped, LoopAction::Continue),
    }
}

/// A timed-out wait for a datagram stops the session and closes the stream,
/// whether or not the session was already stopped.
pub proof fn lemma_timeout_closes_stream(stopped: bool)
    ensures
        session_step_spec(stopped, SessionEvent::DatagramWaitTimedOut) == (
            true,
            LoopAction::CloseAndEnd,
        ),
{
}

/// The stop flag after an event is set exactly where it was set before, or
/// the event is a failed stream read or a timed-out datagram wait; only the
/// timed-out wait closes the stream, and a loop ends exactly on a failed
/// stream read, a failed datagram send or a timed-out wait.
pub proof fn lemma_session_step_outcomes(stopped: bool, event: SessionEvent)
    ensures
        session_step_spec(stopped, event).0 == (stopped || event == SessionEvent::StreamReadFailed
            || event == SessionEvent::DatagramWaitTimedOut),
        (session_step_spec(stopped, event).1 == LoopAction::CloseAndEnd) <==> event
            == SessionEvent::DatagramWaitTimedOut,
        (session_step_spec(stopped, event).1 == LoopAction::End) <==> (event
            == SessionEvent::StreamReadFailed || event == SessionEvent::DatagramSendFailed),
{
}

/// Each loop's check at the start of a round ends it exactly when the session
/// is stopped; only the datagram side closes the stream as it ends.
pub proof fn lemma_polls_follow_stop_flag(stopped: bool)
    ensures
        (stream_side_poll_spec(stopped) == LoopAction::End) == stopped,
        (stream_side_poll_spec(stopped) == LoopAction::Continue) == !stopped,
        (datagram_side_poll_spec(stopped) == LoopAction::CloseAndEnd) == stopped,
        (datagram_side_poll_spec(stopped) == LoopAction::Continue) == !stopped,
{
}

/// A stopped session stays stopped, whatever happens next.
pub proof fn lemma_stop_is_final(stopped: bool, event: SessionEvent)
    ensures
        stopped ==> session_step_spec(stopped, event).0,
{
}

/// Once a session is stopped, each loop ends at the start of its next round,
/// and the datagram side closes the stream as it does.
pub proof fn lemma_stopped_session_ends(event: SessionEvent)
    ensures
        stream_side_poll_spec(session_step_spec(true, event).0) == LoopAction::End,
        datagram_side_poll_spec(session_step_spec(true, event).0) == LoopAction::CloseAndEnd,
{
}

/// A failed stream read or a timed-out datagram wait stops the session: the
/// other loop ends at the start of its next round.
pub proof fn lemma_failure_stops_other_side(stopped: bool)
    ensures
        datagram_side_poll_spec(session_step_spec(stopped, SessionEvent::StreamReadFailed).0)
            == LoopAction::CloseAndEnd,
        stream_side_poll_spec(session_step_spec(stopped, SessionEvent::DatagramWaitTimedOut).0)
            == LoopAction::End,
{
}

/// The loop that met an event ends exactly where the event is a failure
/// other than a failed receive.
pub proof fn lemma_only_failures_end_a_loop(stopped: bool, event: SessionEvent)
    ensures
        (session_step_spec(stopped, event).1 == LoopAction::Continue) <==> (event
            == SessionEvent::DatagramSent || event == SessionEvent::DatagramRecvFailed || event
            == SessionEvent::FrameWritten),
{
}

} // verus!
