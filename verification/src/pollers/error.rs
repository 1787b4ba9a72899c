use vstd::prelude::*;

verus! {

/// What went wrong in a poller, as it is shown to the caller.
#[derive(Copy, Clone, Eq, PartialEq, Structural, Debug)]
pub enum ErrorKind {
    Internal,
}

/// The component that an error came from.
#[derive(Copy, Clone, Eq, PartialEq, Structural, Debug)]
pub enum ErrorSource {
    R2D2,
    /// The client of the blockchain.
    Client,
    /// The publisher.
    Publisher,
}

/// The step at which an error arose.
#[derive(Copy, Clone, Eq, PartialEq, Structural, Debug)]
pub enum ErrorContext {
    NoAuthToken,
    NotOwnResources,
    NoWallet,
    SigningTransaction,
}

/// An error of a poller.
#[derive(Copy, Clone, Eq, PartialEq, Structural, Debug)]
pub struct Error {
    pub kind: ErrorKind,
    pub context: Option<ErrorContext>,
    pub source: Option<ErrorSource>,
}

} // verus!
