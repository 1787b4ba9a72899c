//! A gateway between two blockchains and a message broker: the rules that
//! turn what a Bitcoin or Ethereum node answers into canonical transaction
//! records, the walks over recent blocks that produce them, and the decisions
//! of the publisher, the pollers and the HTTP interface around them.
//!
//! The crate performs no I/O. Every exchange with a node or a broker is
//! described as a value (a request to send, a declaration to make), and every
//! answer is taken as a plain value.
pub mod api;
pub mod client;
pub mod config;
pub mod models;
pub mod pollers;
pub mod rabbit;
pub mod services;
pub mod text;
