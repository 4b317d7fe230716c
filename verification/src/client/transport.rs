//! How the connection to the server proceeds: its states, the handshake that
//! authenticates it, and the heartbeat that measures its latency.

use vstd::prelude::*;
use vstd::string::StringExecFns;
use crate::error::RSError;
use crate::models::events::{ClientEvent, ServerEvent};

verus! {

/// The state of the connection.
#[derive(Debug, Clone, Copy, PartialEq, Eq)]
pub enum ConnectionState {
    /// No socket is open.
    Disconnected,
    /// The socket is open; nothing was sent yet.
    Connected,
    /// The token was sent; the server's answer is awaited.
    Authenticating,
    /// The server accepted the token: events are received.
    Authenticated,
    /// The connection is over.
    Closed,
}

/// What happened on the connection.
#[derive(Debug, Clone, Copy, PartialEq, Eq)]
pub enum Signal {
    /// The socket was opened.
    Opened,
    /// The token was sent.
    TokenSent,
    /// The server accepted the token.
    Accepted,
    /// The server answered the token with anything else, or with nothing.
    Refused,
    /// The server ended the stream, or the connection was closed from this side.
    Ended,
}

impl ConnectionState {
    /// The state that follows on a signal. The connection goes from
    /// disconnected over connected and authenticating to authenticated, and
    /// from any state to closed; a signal that does not belong to the state
    /// changes nothing.
    pub open spec fn after(self, signal: Signal) -> ConnectionState {
        match (self, signal) {
            (ConnectionState::Disconnected, Signal::Opened) => ConnectionState::Connected,
            (ConnectionState::Connected, Signal::TokenSent) => ConnectionState::Authenticating,
            (ConnectionState::Authenticating, Signal::Accepted) => ConnectionState::Authenticated,
            (ConnectionState::Authenticating, Signal::Refused) => ConnectionState::Closed,
            (_, Signal::Ended) => ConnectionState::Closed,
            _ => self,
        }
    }

    /// The state that follows on a signal.
    pub fn next(self, signal: Signal) -> (r: ConnectionState)
        ensures
            r == self.after(signal),
    {
        match (self, signal) {
            (ConnectionState::Disconnected, Signal::Opened) => ConnectionState::Connected,
            (ConnectionState::Connected, Signal::TokenSent) => ConnectionState::Authenticating,
            (ConnectionState::Authenticating, Signal::Accepted) => ConnectionState::Authenticated,
            (ConnectionState::Authenticating, Signal::Refused) => ConnectionState::Closed,
            (_, Signal::Ended) => ConnectionState::Closed,
            _ => self,
        }
    }
}

/// A closed connection stays closed, and a connection becomes authenticated
/// only when the server accepts the token while the answer is awaited.
pub proof fn lemma_connection_states(state: ConnectionState, signal: Signal)
    ensures
        state == ConnectionState::Closed ==> state.after(signal) == ConnectionState::Closed,
        state != ConnectionState::Authenticated && state.after(signal)
            == ConnectionState::Authenticated ==> state == ConnectionState::Authenticating
            && signal == Signal::Accepted,
{
}

/// The name of the kind of a frame received from the server.
pub open spec fn kind_of(event: ServerEvent) -> Seq<char> {
    match event {
        ServerEvent::Error { .. } => "Error"@,
        ServerEvent::Authenticated => "Authenticated"@,
        ServerEvent::Pong { .. } => "Pong"@,
        ServerEvent::Ready(_) => "Ready"@,
        ServerEvent::Message(_) => "Message"@,
        ServerEvent::MessageUpdate(_) => "MessageUpdate"@,
        ServerEvent::MessageDelete(_) => "MessageDelete"@,
        ServerEvent::ChannelCreate(_) => "ChannelCreate"@,
        ServerEvent::ChannelUpdate(_) => "ChannelUpdate"@,
        ServerEvent::ChannelDelete(_) => "ChannelDelete"@,
        ServerEvent::ChannelGroupJoin(_) => "ChannelGroupJoin"@,
        ServerEvent::ChannelGroupLeave(_) => "ChannelGroupLeave"@,
        ServerEvent::ChannelStartTyping(_) => "ChannelStartTyping"@,
        ServerEvent::ChannelStopTyping(_) => "ChannelStopTyping"@,
        ServerEvent::ChannelAck(_) => "ChannelAck"@,
        ServerEvent::ServerUpdate(_) => "ServerUpdate"@,
        ServerEvent::ServerDelete(_) => "ServerDelete"@,
        ServerEvent::ServerMemberUpdate(_) => "ServerMemberUpdate"@,
        ServerEvent::ServerMemberJoin(_) => "ServerMemberJoin"@,
        ServerEvent::ServerMemberLeave(_) => "ServerMemberLeave"@,
        ServerEvent::ServerRoleUpdate(_) => "ServerRoleUpdate"@,
        ServerEvent::ServerRoleDelete(_) => "ServerRoleDelete"@,
        ServerEvent::UserUpdate(_) => "UserUpdate"@,
    }
}

/// The name of the kind of a frame received from the server.
pub fn kind(event: &ServerEvent) -> (name: &'static str)
    ensures
        name@ == kind_of(*event),
{
    match event {
        ServerEvent::Error { .. } => "Error",
        ServerEvent::Authenticated => "Authenticated",
        ServerEvent::Pong { .. } => "Pong",
        ServerEvent::Ready(_) => "Ready",
        ServerEvent::Message(_) => "Message",
        ServerEvent::MessageUpdate(_) => "MessageUpdate",
        ServerEvent::MessageDelete(_) => "MessageDelete",
        ServerEvent::ChannelCreate(_) => "ChannelCreate",
        ServerEvent::ChannelUpdate(_) => "ChannelUpdate",
        ServerEvent::ChannelDelete(_) => "ChannelDelete",
        ServerEvent::ChannelGroupJoin(_) => "ChannelGroupJoin",
        ServerEvent::ChannelGroupLeave(_) => "ChannelGroupLeave",
        ServerEvent::ChannelStartTyping(_) => "ChannelStartTyping",
        ServerEvent::ChannelStopTyping(_) => "ChannelStopTyping",
        ServerEvent::ChannelAck(_) => "ChannelAck",
        ServerEvent::ServerUpdate(_) => "ServerUpdate",
        ServerEvent::ServerDelete(_) => "ServerDelete",
        ServerEvent::ServerMemberUpdate(_) => "ServerMemberUpdate",
        ServerEvent::ServerMemberJoin(_) => "ServerMemberJoin",
        ServerEvent::ServerMemberLeave(_) => "ServerMemberLeave",
        ServerEvent::ServerRoleUpdate(_) => "ServerRoleUpdate",
        ServerEvent::ServerRoleDelete(_) => "ServerRoleDelete",
        ServerEvent::UserUpdate(_) => "UserUpdate",
    }
}

/// The frame that opens the handshake: the token of the bot.
pub fn authentication(token: String) -> (frame: ClientEvent)
    ensures
        frame == (ClientEvent::Authenticate { token }),
{
    ClientEvent::Authenticate { token }
}

/// Whether the handshake succeeded, from the server's answer to the token:
/// the first frame received after it, or nothing if the server closed the
/// connection instead. Only the frame that acknowledges the token makes the
/// handshake succeed. An error frame makes it fail with the error it
/// carries; a closed connection and any other frame make it fail as unknown,
/// with a text that says which of the two happened.
pub fn authenticate(answer: Option<ServerEvent>) -> (r: Result<(), RSError>)
    ensures
        (match answer {
            Some(ServerEvent::Authenticated) => r is Ok,
            Some(ServerEvent::Error { error }) => r == Err::<(), RSError>(
                RSError::Authentication(error),
            ),
            Some(other) => r matches Err(RSError::Unknown(text)) && text@
                == "Unexpected event received while authenticating: "@ + kind_of(other),
            None => r matches Err(RSError::Unknown(text)) && text@
                == "The server closed the connection unexpectedly"@,
        }),
{
    match answer {
        Some(ServerEvent::Authenticated) => Ok(()),
        Some(ServerEvent::Error { error }) => Err(RSError::Authentication(error)),
        Some(other) => Err(
            RSError::Unknown(
                "Unexpected event received while authenticating: ".to_owned().concat(kind(&other)),
            ),
        ),
        None => Err(RSError::Unknown("The server closed the connection unexpectedly".to_owned())),
    }
}

/// The signal that the server's answer to the token gives the connection.
pub fn answer_signal(answer: &Option<ServerEvent>) -> (signal: Signal)
    ensures
        signal == (if answer == Some(ServerEvent::Authenticated) {
            Signal::Accepted
        } else {
            Signal::Refused
        }),
{
    match answer {
        Some(ServerEvent::Authenticated) => Signal::Accepted,
        _ => Signal::Refused,
    }
}

/// The heartbeat of a connection: when the last ping was sent, and how long
/// the server took to answer the last ping that it answered. Times are in
/// milliseconds of one clock.
#[derive(Debug, Clone, Copy, PartialEq, Eq)]
pub struct Heartbeat {
    /// How long to wait between two pings.
    pub interval: u64,
    /// When the last ping was sent, and the number it carried.
    pub sent: Option<(u64, usize)>,
    /// Whether the last ping is still without an answer.
    pub awaiting: bool,
    /// How long the server took to answer.
    pub latency: Option<u64>,
}

impl Heartbeat {
    /// Whether a ping is due at the time `now`: none was sent yet, or the
    /// interval has passed since the last one was.
    pub open spec fn due(self, now: u64) -> bool {
        match self.sent {
            Some((at, _)) => now >= at && now - at >= self.interval,
            None => true,
        }
    }

    /// The number that the next ping carries.
    pub open spec fn next_number(self) -> usize {
        match self.sent {
            Some((_, number)) => if number == usize::MAX {
                0
            } else {
                (number + 1) as usize
            },
            None => 0,
        }
    }

    /// A heartbeat that has sent nothing yet.
    pub fn new(interval: u64) -> (heartbeat: Heartbeat)
        ensures
            heartbeat == (Heartbeat { interval, sent: None, awaiting: false, latency: None }),
    {
        Heartbeat { interval, sent: None, awaiting: false, latency: None }
    }

    /// Sends a ping if one is due: the ping to send is returned, and the time
    /// is kept as the time it was sent at.
    pub fn check_heartbeat(&mut self, now: u64) -> (ping: Option<ClientEvent>)
        ensures
            old(self).due(now) ==> ping == Some(ClientEvent::Ping { data: old(self).next_number() })
                && *final(self) == (Heartbeat {
                sent: Some((now, old(self).next_number())),
                awaiting: true,
                ..*old(self)
            }),
            !old(self).due(now) ==> ping is None && *final(self) == *old(self),
    {
        let (due, number) = match self.sent {
            Some((at, number)) => (
                now >= at && now - at >= self.interval,
                if number == usize::MAX {
                    0
                } else {
                    number + 1
                },
            ),
            None => (true, 0),
        };
        if due {
            self.sent = Some((now, number));
            self.awaiting = true;
            Some(ClientEvent::Ping { data: number })
        } else {
            None
        }
    }

    /// Takes note of a pong received at the time `now`. If it answers the
    /// last ping, the time that has passed since that ping is the latency.
    pub fn pong(&mut self, data: usize, now: u64)
        ensures
            *final(self) == (match old(self).sent {
                Some((at, number)) => if old(self).awaiting && number == data && now >= at {
                    Heartbeat { awaiting: false, latency: Some((now - at) as u64), ..*old(self) }
                } else {
                    *old(self)
                },
                None => *old(self),
            }),
    {
        if let Some((at, number)) = self.sent {
            if self.awaiting && number == data && now >= at {
                self.awaiting = false;
                self.latency = Some(now - at);
            }
        }
    }

    /// The latency measured last, if the server has answered a ping yet.
    pub fn latency(&self) -> (r: Option<u64>)
        ensures
            r == self.latency,
    {
        self.latency
    }
}

} // verus!
