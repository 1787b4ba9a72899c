//! The services behind the HTTP interface. They pass requests to the
//! clients; what they add is the mapping of errors.
pub mod error;

pub use self::error::{convert_error, Error, ErrorContext, ErrorKind, ErrorSource};
