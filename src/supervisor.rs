//! The reconnecting stream state machine that every WebSocket connection
//! follows: connect, read frames, answer pings, and on a close, a read
//! error or a failed connect start over at once, forever.

use vstd::prelude::*;

verus! {

#[derive(Debug, Clone, Copy, PartialEq, Eq, Structural)]
pub enum ConnectionState {
    Connecting,
    Connected,
    Closing,
}

/// A frame read from an open connection.
#[derive(Debug, Clone, PartialEq, Eq)]
pub enum Frame {
    Text(String),
    Binary(Vec<u8>),
    Ping(Vec<u8>),
    Pong(Vec<u8>),
    Close,
    Other,
}

/// What the transport reports back after carrying out an action.
#[derive(Debug, Clone, PartialEq, Eq)]
pub enum StreamEvent {
    /// The connect attempt succeeded.
    Opened,
    /// The connect attempt failed.
    ConnectFailed,
    /// A frame arrived.
    Received(Frame),
    /// Reading failed.
    ReadError,
    /// The peer ended the stream without a close frame.
    Ended,
    /// The connection has been dropped.
    Disconnected,
}

/// What the transport is to do next.
#[derive(Debug, Clone, PartialEq, Eq)]
pub enum StreamAction {
    /// Open a new connection.
    Connect,
    /// Read the next frame.
    ReadNext,
    /// Answer a ping with this payload, then read the next frame.
    SendPong(Vec<u8>),
    /// Hand this text frame to the stream's handler, then read the next frame.
    HandleText(String),
    /// Hand this binary frame to the stream's handler, then read the next frame.
    HandleBinary(Vec<u8>),
    /// Drop the connection.
    Disconnect,
}

/// The next state and action of a connection in state `s` on event `e`.
pub open spec fn next(s: ConnectionState, e: StreamEvent) -> (ConnectionState, StreamAction) {
    match s {
        ConnectionState::Connecting => match e {
            StreamEvent::Opened => (ConnectionState::Connected, StreamAction::ReadNext),
            _ => (ConnectionState::Connecting, StreamAction::Connect),
        },
        ConnectionState::Connected => match e {
            StreamEvent::Received(Frame::Text(t)) => (ConnectionState::Connected, StreamAction::HandleText(t)),
            StreamEvent::Received(Frame::Binary(b)) => (ConnectionState::Connected, StreamAction::HandleBinary(b)),
            StreamEvent::Received(Frame::Ping(p)) => (ConnectionState::Connected, StreamAction::SendPong(p)),
            StreamEvent::Received(Frame::Close) => (ConnectionState::Closing, StreamAction::Disconnect),
            StreamEvent::ReadError => (ConnectionState::Closing, StreamAction::Disconnect),
            StreamEvent::Ended => (ConnectionState::Closing, StreamAction::Disconnect),
            _ => (ConnectionState::Connected, StreamAction::ReadNext),
        },
        ConnectionState::Closing => match e {
            StreamEvent::Disconnected => (ConnectionState::Connecting, StreamAction::Connect),
            _ => (ConnectionState::Closing, StreamAction::Disconnect),
        },
    }
}

/// The decisions of one connection; the transport carries them out.
#[derive(Debug, Clone, Copy, PartialEq, Eq)]
pub struct Supervisor {
    pub state: ConnectionState,
}

impl Supervisor {
    /// A connection about to be opened; its first action is `Connect`.
    pub fn new() -> (s: Self)
        ensures
            s.state == ConnectionState::Connecting,
    {
        Supervisor { state: ConnectionState::Connecting }
    }

    /// Takes in what the transport reports and says what to do next.
    pub fn step(&mut self, event: StreamEvent) -> (a: StreamAction)
        ensures
            (final(self).state, a) == next(old(self).state, event),
    {
        let (s, a) = match self.state {
            ConnectionState::Connecting => match event {
                StreamEvent::Opened => (ConnectionState::Connected, StreamAction::ReadNext),
                _ => (ConnectionState::Connecting, StreamAction::Connect),
            },
            ConnectionState::Connected => match event {
                StreamEvent::Received(Frame::Text(t)) => (ConnectionState::Connected, StreamAction::HandleText(t)),
                StreamEvent::Received(Frame::Binary(b)) => (ConnectionState::Connected, StreamAction::HandleBinary(b)),
                StreamEvent::Received(Frame::Ping(p)) => (ConnectionState::Connected, StreamAction::SendPong(p)),
                StreamEvent::Received(Frame::Close) => (ConnectionState::Closing, StreamAction::Disconnect),
                StreamEvent::ReadError => (ConnectionState::Closing, StreamAction::Disconnect),
                StreamEvent::Ended => (ConnectionState::Closing, StreamAction::Disconnect),
                _ => (ConnectionState::Connected, StreamAction::ReadNext),
            },
            ConnectionState::Closing => match event {
                StreamEvent::Disconnected => (ConnectionState::Connecting, StreamAction::Connect),
                _ => (ConnectionState::Closing, StreamAction::Disconnect),
            },
        };
        self.state = s;
        a
    }
}

/// A connection that loses its peer (a close frame, a read error or the end
/// of the stream) while connected drops the connection and then issues a new
/// connect attempt at once, with no wait; a failed attempt is retried at
/// once too.
pub proof fn lemma_reconnect_after_loss(e: StreamEvent)
    requires
        e == StreamEvent::Received(Frame::Close) || e == StreamEvent::ReadError || e == StreamEvent::Ended,
    ensures
        next(ConnectionState::Connected, e) == (ConnectionState::Closing, StreamAction::Disconnect),
        next(ConnectionState::Closing, StreamEvent::Disconnected) == (ConnectionState::Connecting, StreamAction::Connect),
        next(ConnectionState::Connecting, StreamEvent::ConnectFailed) == (ConnectionState::Connecting, StreamAction::Connect),
{
}

/// No state is final: whatever happens, a connecting machine asks for a
/// connect, a closing one for the drop that leads back to connecting, and a
/// connected one keeps reading.
pub proof fn lemma_never_stops(s: ConnectionState, e: StreamEvent)
    ensures
        next(s, e).0 == ConnectionState::Connecting ==> next(s, e).1 == StreamAction::Connect,
        next(s, e).0 == ConnectionState::Closing ==> next(s, e).1 == StreamAction::Disconnect,
        next(s, e).0 == ConnectionState::Connected ==> next(s, e).1 != StreamAction::Connect
            && next(s, e).1 != StreamAction::Disconnect,
{
}

/// A ping is answered with its own payload and the connection stays open.
pub proof fn lemma_ping_answered(payload: Vec<u8>)
    ensures
        next(ConnectionState::Connected, StreamEvent::Received(Frame::Ping(payload)))
            == (ConnectionState::Connected, StreamAction::SendPong(payload)),
{
}

/// What a text frame holds never decides the connection's fate: every text
/// frame is handed on and the connection stays open, so a frame that fails
/// to decode costs that frame only.
pub proof fn lemma_text_frames_keep_connection(text: String)
    ensures
        next(ConnectionState::Connected, StreamEvent::Received(Frame::Text(text)))
            == (ConnectionState::Connected, StreamAction::HandleText(text)),
{
}

} // verus!
