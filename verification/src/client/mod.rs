//! The clients of the two blockchains: what to ask of a node, and how its
//! answers become canonical transactions.
pub mod bitcoin;
pub mod ethereum;
pub mod error;
pub mod http_client;

pub use self::bitcoin::BitcoinClientImpl;
pub use self::error::{Error, ErrorContext, ErrorKind, ErrorSource};
pub use self::ethereum::{bytes_to_hex, hex_to_bytes, EthereumClientImpl};
pub use self::http_client::HttpClientImpl;
