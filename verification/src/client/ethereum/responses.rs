//! What an Ethereum node answers.
use crate::models::amount::Amount;
use crate::models::currency::Currency;
use crate::models::transaction::{BlockchainTransactionEntry, EntryView, Erc20OperationKind};
use vstd::prelude::*;

verus! {

#[derive(Debug, Clone)]
pub struct NonceResponse {
    pub result: String,
}

#[derive(Debug, Clone)]
pub struct BlockNumberResponse {
    pub result: String,
}

#[derive(Debug, Clone)]
pub struct BalanceResponse {
    pub result: String,
}

/// The answer for a block by its number; without result where the node does
/// not have the block.
#[derive(Debug, Clone)]
pub struct BlockByNumberResponse {
    pub result: Option<BlockResponse>,
}

#[derive(Debug, Clone)]
pub struct BlockResponse {
    pub number: String,
    pub transactions: Vec<TransactionResponse>,
}

#[derive(Debug, Clone)]
pub struct TransactionByHashResponse {
    pub result: TransactionResponse,
}

/// A transaction as the node describes it. Numbers are written in
/// hexadecimal after `0x`; `to` is absent where the transaction creates a
/// contract.
#[derive(Debug, Clone)]
pub struct TransactionResponse {
    pub block_number: String,
    pub hash: String,
    pub from: String,
    pub to: Option<String>,
    pub value: String,
    pub gas_price: String,
}

/// What a [`TransactionResponse`] holds.
pub struct TransactionResponseView {
    pub block_number: Seq<char>,
    pub hash: Seq<char>,
    pub from: Seq<char>,
    pub to: Option<Seq<char>>,
    pub value: Seq<char>,
    pub gas_price: Seq<char>,
}

impl View for TransactionResponse {
    type V = TransactionResponseView;

    open spec fn view(&self) -> TransactionResponseView {
        TransactionResponseView {
            block_number: self.block_number@,
            hash: self.hash@,
            from: self.from@,
            to: match self.to {
                Some(t) => Some(t@),
                None => None,
            },
            value: self.value@,
            gas_price: self.gas_price@,
        }
    }
}

impl DeepView for TransactionResponse {
    type V = TransactionResponseView;

    open spec fn deep_view(&self) -> TransactionResponseView {
        self@
    }
}

#[derive(Debug, Clone)]
pub struct PostTransactionsResponse {
    pub result: String,
}

/// The logs that the node found for a filter.
#[derive(Debug, Clone)]
pub struct StqResponse {
    pub result: Vec<StqResponseItem>,
}

impl StqResponse {
    /// The logs of `self` followed by those of `other`.
    pub fn concat(self, other: StqResponse) -> (r: Self)
        ensures
            r.result.deep_view() == self.result.deep_view() + other.result.deep_view(),
    {
        let ghost a = self.result.deep_view();
        let ghost b = other.result.deep_view();
        let mut result = self.result;
        let mut rest = other.result;
        result.append(&mut rest);
        assert(result.deep_view() =~= a + b);
        StqResponse { result }
    }
}

/// A log of the token contract. `topics` holds the signature of the event,
/// then the sender and the recipient; `data` holds the amount.
#[derive(Debug, Clone)]
pub struct StqResponseItem {
    pub address: String,
    pub topics: Vec<String>,
    pub data: String,
    pub block_number: String,
    pub transaction_log_index: String,
    pub block_hash: String,
    pub transaction_hash: String,
}

/// What a [`StqResponseItem`] holds.
pub struct StqResponseItemView {
    pub address: Seq<char>,
    pub topics: Seq<Seq<char>>,
    pub data: Seq<char>,
    pub block_number: Seq<char>,
    pub transaction_log_index: Seq<char>,
    pub block_hash: Seq<char>,
    pub transaction_hash: Seq<char>,
}

impl View for StqResponseItem {
    type V = StqResponseItemView;

    open spec fn view(&self) -> StqResponseItemView {
        StqResponseItemView {
            address: self.address@,
            topics: self.topics.deep_view(),
            data: self.data@,
            block_number: self.block_number@,
            transaction_log_index: self.transaction_log_index@,
            block_hash: self.block_hash@,
            transaction_hash: self.transaction_hash@,
        }
    }
}

impl DeepView for StqResponseItem {
    type V = StqResponseItemView;

    open spec fn deep_view(&self) -> StqResponseItemView {
        self@
    }
}

/// The index that a log gets where the node names none: `0x0`. Two logs of
/// one transaction then share their index.
pub fn default_tx_log_idx() -> (r: String)
    ensures
        r@ == "0x0"@,
{
    String::from_str("0x0")
}

#[derive(Debug, Clone)]
pub struct ShortBlockResponse {
    pub result: ShortBlock,
}

#[derive(Debug, Clone)]
pub struct ShortBlock {
    pub number: String,
}

/// The answer for a receipt; without result while the node has none.
#[derive(Debug, Clone)]
pub struct TransactionReceiptResponse {
    pub result: Option<TransactionReceipt>,
}

#[derive(Debug, Clone)]
pub struct TransactionReceipt {
    pub block_number: String,
    pub gas_used: String,
}

/// What a [`TransactionReceipt`] holds.
pub struct TransactionReceiptView {
    pub block_number: Seq<char>,
    pub gas_used: Seq<char>,
}

impl View for TransactionReceipt {
    type V = TransactionReceiptView;

    open spec fn view(&self) -> TransactionReceiptView {
        TransactionReceiptView { block_number: self.block_number@, gas_used: self.gas_used@ }
    }
}

/// A transaction that lacks what only its receipt tells: the gas it used,
/// and with it the fee, and its confirmations.
#[derive(Debug, Clone, PartialEq, Eq)]
pub struct PartialBlockchainTransaction {
    pub hash: String,
    pub from: Vec<String>,
    pub to: Vec<BlockchainTransactionEntry>,
    pub block_number: u64,
    pub currency: Currency,
    pub gas_price: Amount,
    pub erc20_operation_kind: Option<Erc20OperationKind>,
}

/// What a [`PartialBlockchainTransaction`] holds.
pub struct PartialTransactionView {
    pub hash: Seq<char>,
    pub from: Seq<Seq<char>>,
    pub to: Seq<EntryView>,
    pub block_number: u64,
    pub currency: Currency,
    pub gas_price: nat,
    pub erc20_operation_kind: Option<Erc20OperationKind>,
}

impl View for PartialBlockchainTransaction {
    type V = PartialTransactionView;

    open spec fn view(&self) -> PartialTransactionView {
        PartialTransactionView {
            hash: self.hash@,
            from: self.from.deep_view(),
            to: self.to.deep_view(),
            block_number: self.block_number,
            currency: self.currency,
            gas_price: self.gas_price@,
            erc20_operation_kind: self.erc20_operation_kind,
        }
    }
}

impl DeepView for PartialBlockchainTransaction {
    type V = PartialTransactionView;

    open spec fn deep_view(&self) -> PartialTransactionView {
        self@
    }
}

} // verus!
