use crate::models::transaction::{RawBitcoinTransaction, RawEthereumTransaction};
use vstd::prelude::*;

verus! {

/// The body of a request to send a Bitcoin transaction.
#[derive(Debug, Clone)]
pub struct PostBitcoinTransactionRequest {
    pub raw: RawBitcoinTransaction,
}

/// The body of a request to send an Ethereum transaction.
#[derive(Debug, Clone)]
pub struct PostEthereumTransactionRequest {
    pub raw: RawEthereumTransaction,
}

} // verus!
