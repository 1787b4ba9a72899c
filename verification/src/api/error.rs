use crate::services::error::ErrorKind as ServiceErrorKind;
use vstd::prelude::*;

verus! {

/// What went wrong with a request, as the HTTP interface answers it.
#[derive(Clone, Debug, PartialEq, Eq)]
pub enum ErrorKind {
    BadRequest,
    Unauthorized,
    NotFound,
    /// The input broke the rules that this text lists, as JSON.
    UnprocessableEntity(String),
    Internal,
}

/// What an [`ErrorKind`] holds.
pub enum ErrorKindView {
    BadRequest,
    Unauthorized,
    NotFound,
    UnprocessableEntity(Seq<char>),
    Internal,
}

impl View for ErrorKind {
    type V = ErrorKindView;

    open spec fn view(&self) -> ErrorKindView {
        match self {
            ErrorKind::BadRequest => ErrorKindView::BadRequest,
            ErrorKind::Unauthorized => ErrorKindView::Unauthorized,
            ErrorKind::NotFound => ErrorKindView::NotFound,
            ErrorKind::UnprocessableEntity(errors) => ErrorKindView::UnprocessableEntity(errors@),
            ErrorKind::Internal => ErrorKindView::Internal,
        }
    }
}

/// The component that an error came from.
#[derive(Copy, Clone, Eq, PartialEq, Structural, Debug)]
pub enum ErrorSource {
    Hyper,
}

/// The step at which an error arose.
#[derive(Copy, Clone, Eq, PartialEq, Structural, Debug)]
pub enum ErrorContext {
    Config,
    RequestJson,
    ResponseJson,
}

/// How an error is recorded.
#[derive(Copy, Clone, Eq, PartialEq, Structural, Debug)]
pub enum Record {
    /// Logged as a warning.
    Warn,
    /// Logged as an error.
    Error,
    /// Logged as an error and reported to the error capture.
    ErrorAndCapture,
}

/// The answer to a request that failed.
#[derive(Clone, Debug, PartialEq, Eq)]
pub struct ErrorResponse {
    pub status: u16,
    pub content_type: String,
    pub body: String,
    pub record: Record,
}

/// The status that answers an error.
pub open spec fn spec_status(kind: ErrorKindView) -> u16 {
    match kind {
        ErrorKindView::BadRequest => 400,
        ErrorKindView::Unauthorized => 401,
        ErrorKindView::NotFound => 404,
        ErrorKindView::UnprocessableEntity(_) => 422,
        ErrorKindView::Internal => 500,
    }
}

/// The body that answers an error: a short description, or the broken
/// rules where the input was invalid.
pub open spec fn spec_body(kind: ErrorKindView) -> Seq<char> {
    match kind {
        ErrorKindView::BadRequest => "{\"description\": \"Bad request\"}"@,
        ErrorKindView::Unauthorized => "{\"description\": \"Unauthorized\"}"@,
        ErrorKindView::NotFound => "{\"description\": \"Not found\"}"@,
        ErrorKindView::UnprocessableEntity(errors) => errors,
        ErrorKindView::Internal => "{\"description\": \"Internal server error\"}"@,
    }
}

/// How an error is recorded: what the caller did wrong is a warning; an
/// internal failure is also reported to the error capture.
pub open spec fn spec_record(kind: ErrorKindView) -> Record {
    match kind {
        ErrorKindView::BadRequest => Record::Warn,
        ErrorKindView::Unauthorized => Record::Warn,
        ErrorKindView::NotFound => Record::Error,
        ErrorKindView::UnprocessableEntity(_) => Record::Warn,
        ErrorKindView::Internal => Record::ErrorAndCapture,
    }
}

/// The kind that the interface shows for a kind of a service.
pub open spec fn spec_kind_of(kind: ServiceErrorKind) -> ErrorKindView {
    match kind {
        ServiceErrorKind::Unauthorized => ErrorKindView::Unauthorized,
        ServiceErrorKind::MalformedInput => ErrorKindView::BadRequest,
        ServiceErrorKind::NotFound => ErrorKindView::NotFound,
        ServiceErrorKind::InvalidInput(errors) => ErrorKindView::UnprocessableEntity(errors@),
        ServiceErrorKind::Internal => ErrorKindView::Internal,
    }
}

/// The kind that the interface shows for a kind of a service.
pub fn kind_of(kind: ServiceErrorKind) -> (r: ErrorKind)
    ensures
        r@ == spec_kind_of(kind),
{
    match kind {
        ServiceErrorKind::Unauthorized => ErrorKind::Unauthorized,
        ServiceErrorKind::MalformedInput => ErrorKind::BadRequest,
        ServiceErrorKind::NotFound => ErrorKind::NotFound,
        ServiceErrorKind::InvalidInput(errors) => ErrorKind::UnprocessableEntity(errors),
        ServiceErrorKind::Internal => ErrorKind::Internal,
    }
}

/// The answer to a request that failed: always JSON.
pub fn error_response(kind: ErrorKind) -> (r: ErrorResponse)
    ensures
        r.status == spec_status(kind@),
        r.body@ == spec_body(kind@),
        r.record == spec_record(kind@),
        r.content_type@ == "application/json"@,
{
    let content_type = String::from_str("application/json");
    match kind {
        ErrorKind::BadRequest => ErrorResponse {
            status: 400,
            content_type,
            body: String::from_str("{\"description\": \"Bad request\"}"),
            record: Record::Warn,
        },
        ErrorKind::Unauthorized => ErrorResponse {
            status: 401,
            content_type,
            body: String::from_str("{\"description\": \"Unauthorized\"}"),
            record: Record::Warn,
        },
        ErrorKind::NotFound => ErrorResponse {
            status: 404,
            content_type,
            body: String::from_str("{\"description\": \"Not found\"}"),
            record: Record::Error,
        },
        ErrorKind::UnprocessableEntity(errors) => ErrorResponse {
            status: 422,
            content_type,
            body: errors,
            record: Record::Warn,
        },
        ErrorKind::Internal => ErrorResponse {
            status: 500,
            content_type,
            body: String::from_str("{\"description\": \"Internal server error\"}"),
            record: Record::ErrorAndCapture,
        },
    }
}

} // verus!
