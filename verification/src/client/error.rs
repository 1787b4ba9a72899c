use vstd::prelude::*;

verus! {

/// What went wrong, as it is shown to the caller of a client.
#[derive(Copy, Clone, Eq, PartialEq, Structural, Debug)]
pub enum ErrorKind {
    BadRequest,
    Unauthorized,
    NotFound,
    UnprocessableEntity,
    InternalServer,
    BadGateway,
    GatewayTimeout,
    UnknownServerError,
    Internal,
    /// The node has no receipt yet for a transaction: it is asked again on
    /// the next tick.
    NoReceipt,
}

/// The step at which an error arose.
#[derive(Copy, Clone, Eq, PartialEq, Structural, Debug)]
pub enum ErrorContext {
    /// Arithmetic on amounts left the range of an amount.
    Overflow,
    UTF8,
    Json,
    /// A field that should hold a hexadecimal number does not.
    Hex,
    /// An ERC-20 log has too few topics, or a topic too short for an address.
    Topics,
    /// An input of a Bitcoin transaction could not be resolved.
    BitcoinRpcConversion,
}

/// The component that an error came from.
#[derive(Copy, Clone, Eq, PartialEq, Structural, Debug)]
pub enum ErrorSource {
    Hyper,
    /// The node answered with an error status.
    Server,
}

/// An error of a client: its kind, and where known the step and the
/// component it came from, and the text that came with it.
#[derive(Clone, Eq, PartialEq, Debug)]
pub struct Error {
    pub kind: ErrorKind,
    pub context: Option<ErrorContext>,
    pub source: Option<ErrorSource>,
    pub message: String,
}

impl Error {
    /// Whether the error has this kind and this context, and nothing more.
    pub open spec fn is_context(self, kind: ErrorKind, context: ErrorContext) -> bool {
        &&& self.kind == kind
        &&& self.context == Some(context)
        &&& self.source.is_none()
        &&& self.message@.len() == 0
    }

    /// Whether the error has this kind, and nothing more.
    pub open spec fn is_kind(self, kind: ErrorKind) -> bool {
        &&& self.kind == kind
        &&& self.context.is_none()
        &&& self.source.is_none()
        &&& self.message@.len() == 0
    }

    /// An error of the given kind that arose at the given step.
    pub fn with_context(kind: ErrorKind, context: ErrorContext) -> (e: Self)
        ensures
            e.is_context(kind, context),
    {
        Error { kind, context: Some(context), source: None, message: String::new() }
    }

    /// An error of the given kind.
    pub fn of_kind(kind: ErrorKind) -> (e: Self)
        ensures
            e.is_kind(kind),
    {
        Error { kind, context: None, source: None, message: String::new() }
    }

    pub fn kind(&self) -> (k: ErrorKind)
        ensures
            k == self.kind,
    {
        self.kind
    }
}

} // verus!
