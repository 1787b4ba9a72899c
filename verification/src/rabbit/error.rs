use vstd::prelude::*;

verus! {

/// What went wrong with the broker, as it is shown to the caller.
#[derive(Copy, Clone, Eq, PartialEq, Structural, Debug)]
pub enum ErrorKind {
    Internal,
    /// The session is not connected, or the channel is not open: nothing
    /// can be published until the session has recovered.
    BrokerUnavailable,
}

/// The component that an error came from.
#[derive(Copy, Clone, Eq, PartialEq, Structural, Debug)]
pub enum ErrorSource {
    Io,
    Timeout,
    Lapin,
}

/// The step at which an error arose.
#[derive(Copy, Clone, Eq, PartialEq, Structural, Debug)]
pub enum ErrorContext {
    TcpConnection,
    RabbitConnection,
    HeartbeatHandle,
    ConnectionTimeout,
    RabbitChannel,
    /// A repair was asked for while the session was already connecting.
    AlreadyConnecting,
}

/// An error of the broker session or of the publisher.
#[derive(Copy, Clone, Eq, PartialEq, Structural, Debug)]
pub struct Error {
    pub kind: ErrorKind,
    pub context: Option<ErrorContext>,
    pub source: Option<ErrorSource>,
}

} // verus!
