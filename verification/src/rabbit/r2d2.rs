//! The session with the broker as a state machine. The program owns the
//! connection and the heartbeat; this module decides what it does with them.
use super::error::{Error, ErrorContext, ErrorKind};
use vstd::prelude::*;

verus! {

/// The state of the connection to the broker.
#[derive(Copy, Clone, Eq, PartialEq, Structural, Debug)]
pub enum ConnectionState {
    /// Nothing has been opened yet.
    Initial,
    Connecting,
    Connected,
    Closing,
    Closed,
    Error,
}

/// What the program does after a step of the session.
#[derive(Copy, Clone, Eq, PartialEq, Structural, Debug)]
pub enum SessionAction {
    /// Nothing.
    Nothing,
    /// Open the transport and the connection.
    Connect,
    /// Start the heartbeat of the new connection.
    StartHeartbeat,
    /// Stop the heartbeat.
    StopHeartbeat,
    /// Stop the heartbeat, drop the connection, and open a new one.
    Reconnect,
}

/// The session with the broker: the state of its connection, and whether
/// its heartbeat runs.
#[derive(Copy, Clone, Debug)]
pub struct RabbitConnectionManager {
    state: ConnectionState,
    heartbeat: bool,
    connection_timeout_secs: u64,
}

impl RabbitConnectionManager {
    pub closed spec fn state(self) -> ConnectionState {
        self.state
    }

    /// Whether the heartbeat runs.
    pub closed spec fn heartbeat(self) -> bool {
        self.heartbeat
    }

    pub closed spec fn timeout(self) -> u64 {
        self.connection_timeout_secs
    }

    /// The heartbeat runs exactly while the session is connected.
    pub open spec fn wf(self) -> bool {
        self.heartbeat() == (self.state() == ConnectionState::Connected)
    }

    /// Whether a connection in this state is lost: it is closing, closed
    /// or failed.
    pub open spec fn is_loss(state: ConnectionState) -> bool {
        state == ConnectionState::Closing || state == ConnectionState::Closed || state
            == ConnectionState::Error
    }

    /// A session that is about to connect; the program opens the
    /// connection, and gives up after `connection_timeout_secs`.
    pub fn establish(connection_timeout_secs: u64) -> (r: (Self, SessionAction))
        ensures
            r.0.state() == ConnectionState::Connecting,
            r.0.timeout() == connection_timeout_secs,
            r.0.wf(),
            r.1 == SessionAction::Connect,
    {
        (
            RabbitConnectionManager {
                state: ConnectionState::Connecting,
                heartbeat: false,
                connection_timeout_secs,
            },
            SessionAction::Connect,
        )
    }

    pub fn connection_state(&self) -> (r: ConnectionState)
        ensures
            r == self.state(),
    {
        self.state
    }

    pub fn connection_timeout_secs(&self) -> (r: u64)
        ensures
            r == self.timeout(),
    {
        self.connection_timeout_secs
    }

    /// Whether the connection is closing, closed or failed.
    pub fn is_broken_conn(&self) -> (r: bool)
        ensures
            r == Self::is_loss(self.state()),
    {
        match self.state {
            ConnectionState::Closing | ConnectionState::Closed | ConnectionState::Error => true,
            _ => false,
        }
    }

    /// Whether the connection is being opened.
    pub fn is_connecting_conn(&self) -> (r: bool)
        ensures
            r == (self.state() == ConnectionState::Connecting),
    {
        match self.state {
            ConnectionState::Connecting => true,
            _ => false,
        }
    }

    /// Whether a channel can be used: only where the connection is
    /// connected and the channel is known to be open. Else nothing can be
    /// published.
    pub fn is_valid(&self, channel_open: bool) -> (r: Result<(), Error>)
        ensures
            r.is_ok() == (self.state() == ConnectionState::Connected && channel_open),
            r matches Err(e) ==> e.kind == ErrorKind::BrokerUnavailable && e.source.is_none()
                && e.context == if self.state() == ConnectionState::Connected {
                Some(ErrorContext::RabbitChannel)
            } else {
                Some(ErrorContext::RabbitConnection)
            },
    {
        match self.state {
            ConnectionState::Connected => {
                if channel_open {
                    Ok(())
                } else {
                    Err(
                        Error {
                            kind: ErrorKind::BrokerUnavailable,
                            context: Some(ErrorContext::RabbitChannel),
                            source: None,
                        },
                    )
                }
            },
            _ => Err(
                Error {
                    kind: ErrorKind::BrokerUnavailable,
                    context: Some(ErrorContext::RabbitConnection),
                    source: None,
                },
            ),
        }
    }

    /// Whether a channel can no longer be used.
    pub fn has_broken(&self, channel_open: bool) -> (r: bool)
        ensures
            r == !(self.state() == ConnectionState::Connected && channel_open),
    {
        self.is_valid(channel_open).is_err()
    }

    /// The connection has been opened: the session is connected, and its
    /// heartbeat starts. A session that was not connecting stays as it is.
    pub fn connected(&mut self) -> (action: SessionAction)
        requires
            old(self).wf(),
        ensures
            final(self).wf(),
            final(self).timeout() == old(self).timeout(),
            old(self).state() == ConnectionState::Connecting ==> final(self).state()
                == ConnectionState::Connected && action == SessionAction::StartHeartbeat,
            old(self).state() != ConnectionState::Connecting ==> final(self).state() == old(self).state() && action == SessionAction::Nothing,
    {
        match self.state {
            ConnectionState::Connecting => {
                self.state = ConnectionState::Connected;
                self.heartbeat = true;
                SessionAction::StartHeartbeat
            },
            _ => SessionAction::Nothing,
        }
    }

    /// The connection has left the state it was in, as the program saw:
    /// it is now closing, closed or failed. The heartbeat of a session that
    /// was connected is stopped. `state` names no state that a connection
    /// is lost to where it is `Initial`, `Connecting` or `Connected`; the
    /// session then stays as it is.
    pub fn lost(&mut self, state: ConnectionState) -> (action: SessionAction)
        requires
            old(self).wf(),
        ensures
            final(self).wf(),
            final(self).timeout() == old(self).timeout(),
            !Self::is_loss(state) ==> *final(self) == *old(self) && action
                == SessionAction::Nothing,
            Self::is_loss(state) ==> final(self).state() == state && action == if old(self).state()
                == ConnectionState::Connected {
                SessionAction::StopHeartbeat
            } else {
                SessionAction::Nothing
            },
    {
        match state {
            ConnectionState::Initial | ConnectionState::Connecting | ConnectionState::Connected => {
                SessionAction::Nothing
            },
            _ => {
                let was_connected = self.heartbeat;
                self.state = state;
                self.heartbeat = false;
                if was_connected {
                    SessionAction::StopHeartbeat
                } else {
                    SessionAction::Nothing
                }
            },
        }
    }

    /// Brings the session back: a session that is connecting refuses, with
    /// the context `AlreadyConnecting`; any other session goes back to
    /// connecting, and the program drops what it has and connects anew.
    pub fn repair(&mut self) -> (r: Result<SessionAction, Error>)
        requires
            old(self).wf(),
        ensures
            final(self).wf(),
            final(self).timeout() == old(self).timeout(),
            final(self).state() == ConnectionState::Connecting,
            match r {
                Ok(action) => old(self).state() != ConnectionState::Connecting && action
                    == SessionAction::Reconnect,
                Err(e) => old(self).state() == ConnectionState::Connecting && e == (Error {
                    kind: ErrorKind::Internal,
                    context: Some(ErrorContext::AlreadyConnecting),
                    source: None,
                }),
            },
    {
        match self.state {
            ConnectionState::Connecting => Err(
                Error {
                    kind: ErrorKind::Internal,
                    context: Some(ErrorContext::AlreadyConnecting),
                    source: None,
                },
            ),
            _ => {
                self.state = ConnectionState::Connecting;
                self.heartbeat = false;
                Ok(SessionAction::Reconnect)
            },
        }
    }
}

} // verus!
