use crate::client::error::Error as ClientError;
use crate::client::error::ErrorKind as ClientErrorKind;
use vstd::prelude::*;
use vstd::std_specs::convert::FromSpecImpl;

verus! {

/// What went wrong in a service, as it is shown to the caller.
#[derive(Clone, Debug, PartialEq, Eq)]
pub enum ErrorKind {
    Unauthorized,
    MalformedInput,
    NotFound,
    /// The input broke the rules that this text lists, as JSON.
    InvalidInput(String),
    Internal,
}

/// The component that an error came from.
#[derive(Copy, Clone, Eq, PartialEq, Structural, Debug)]
pub enum ErrorSource {
    R2D2,
}

/// The step at which an error arose.
#[derive(Copy, Clone, Eq, PartialEq, Structural, Debug)]
pub enum ErrorContext {
    NoAuthToken,
    NotOwnResources,
    NoWallet,
    SigningTransaction,
}

/// An error of a service.
#[derive(Clone, Debug, PartialEq, Eq)]
pub struct Error {
    pub kind: ErrorKind,
    pub context: Option<ErrorContext>,
    pub source: Option<ErrorSource>,
    pub message: String,
}

/// The kind that a service shows for a kind of a client: what the caller
/// did wrong stays the caller's, everything else is internal.
pub open spec fn spec_kind_of(e: ClientErrorKind) -> ErrorKind {
    match e {
        ClientErrorKind::BadRequest => ErrorKind::MalformedInput,
        ClientErrorKind::UnprocessableEntity => ErrorKind::MalformedInput,
        ClientErrorKind::NotFound => ErrorKind::NotFound,
        ClientErrorKind::Unauthorized => ErrorKind::Unauthorized,
        ClientErrorKind::BadGateway => ErrorKind::Internal,
        ClientErrorKind::GatewayTimeout => ErrorKind::Internal,
        ClientErrorKind::Internal => ErrorKind::Internal,
        ClientErrorKind::InternalServer => ErrorKind::Internal,
        ClientErrorKind::UnknownServerError => ErrorKind::Internal,
        ClientErrorKind::NoReceipt => ErrorKind::Internal,
    }
}

impl From<ClientErrorKind> for ErrorKind {
    fn from(e: ClientErrorKind) -> (r: ErrorKind) {
        match e {
            ClientErrorKind::BadGateway => ErrorKind::Internal,
            ClientErrorKind::BadRequest => ErrorKind::MalformedInput,
            ClientErrorKind::GatewayTimeout => ErrorKind::Internal,
            ClientErrorKind::Internal => ErrorKind::Internal,
            ClientErrorKind::InternalServer => ErrorKind::Internal,
            ClientErrorKind::NotFound => ErrorKind::NotFound,
            ClientErrorKind::Unauthorized => ErrorKind::Unauthorized,
            ClientErrorKind::UnknownServerError => ErrorKind::Internal,
            ClientErrorKind::UnprocessableEntity => ErrorKind::MalformedInput,
            ClientErrorKind::NoReceipt => ErrorKind::Internal,
        }
    }
}

impl FromSpecImpl<ClientErrorKind> for ErrorKind {
    open spec fn obeys_from_spec() -> bool {
        true
    }

    open spec fn from_spec(e: ClientErrorKind) -> ErrorKind {
        spec_kind_of(e)
    }
}

/// The error of a service for an error of a client: its kind mapped,
/// its message kept.
pub fn convert_error(e: ClientError) -> (r: Error)
    ensures
        r.kind == spec_kind_of(e.kind),
        r.context.is_none(),
        r.source.is_none(),
        r.message@ == e.message@,
{
    Error { kind: ErrorKind::from(e.kind), context: None, source: None, message: e.message }
}

} // verus!
