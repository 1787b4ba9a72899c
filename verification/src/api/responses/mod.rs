use crate::models::transaction::TxHash;
use vstd::prelude::*;

verus! {

/// The answer to a request for a nonce.
#[derive(Debug, Clone)]
pub struct NonceResponse {
    pub nonce: u64,
}

/// The answer to a request that sent a transaction.
#[derive(Debug, Clone)]
pub struct TxHashResponse {
    pub tx_hash: TxHash,
}

} // verus!
