//! The broker: the session with it, what is declared on it, and where each
//! transaction is published.
pub mod error;
pub mod r2d2;
pub mod transactions;

pub use self::error::{Error, ErrorContext, ErrorKind, ErrorSource};
pub use self::r2d2::{ConnectionState, RabbitConnectionManager, SessionAction};
pub use self::transactions::{Declaration, Publication, QueueName, TransactionPublisherImpl};
