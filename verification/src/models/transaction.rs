use super::amount::Amount;
use super::currency::Currency;
use vstd::prelude::*;

verus! {

/// A signed Bitcoin transaction in hexadecimal, forwarded as it is.
#[derive(Debug, PartialEq, Eq, Clone)]
pub struct RawBitcoinTransaction(String);

impl View for RawBitcoinTransaction {
    type V = Seq<char>;

    closed spec fn view(&self) -> Seq<char> {
        self.0@
    }
}

impl RawBitcoinTransaction {
    pub fn new(raw: String) -> (r: Self)
        ensures
            r@ == raw@,
    {
        RawBitcoinTransaction(raw)
    }

    /// The transaction as text.
    pub fn to_string(&self) -> (r: String)
        ensures
            r@ == self@,
    {
        self.0.clone()
    }
}

/// A signed Ethereum transaction in hexadecimal, forwarded as it is.
#[derive(Debug, PartialEq, Eq, Clone)]
pub struct RawEthereumTransaction(String);

impl View for RawEthereumTransaction {
    type V = Seq<char>;

    closed spec fn view(&self) -> Seq<char> {
        self.0@
    }
}

impl RawEthereumTransaction {
    pub fn new(raw: String) -> (r: Self)
        ensures
            r@ == raw@,
    {
        RawEthereumTransaction(raw)
    }

    /// The transaction as text.
    pub fn to_string(&self) -> (r: String)
        ensures
            r@ == self@,
    {
        self.0.clone()
    }
}

/// The hash of a transaction in hexadecimal, without the `0x` prefix.
#[derive(Debug, PartialEq, Eq, Clone)]
pub struct TxHash(String);

impl View for TxHash {
    type V = Seq<char>;

    closed spec fn view(&self) -> Seq<char> {
        self.0@
    }
}

impl TxHash {
    pub fn new(hash: String) -> (r: Self)
        ensures
            r@ == hash@,
    {
        TxHash(hash)
    }

    /// The hash as text.
    pub fn to_string(&self) -> (r: String)
        ensures
            r@ == self@,
    {
        self.0.clone()
    }
}

/// One recipient of a transaction, or one resolved input of it.
#[derive(Debug, PartialEq, Eq, Clone)]
pub struct BlockchainTransactionEntry {
    pub address: String,
    pub value: Amount,
}

/// What a [`BlockchainTransactionEntry`] holds.
pub struct EntryView {
    pub address: Seq<char>,
    pub value: nat,
}

impl View for BlockchainTransactionEntry {
    type V = EntryView;

    open spec fn view(&self) -> EntryView {
        EntryView { address: self.address@, value: self.value@ }
    }
}

impl DeepView for BlockchainTransactionEntry {
    type V = EntryView;

    open spec fn deep_view(&self) -> EntryView {
        self@
    }
}

/// The operation that an ERC-20 log records.
#[derive(Debug, PartialEq, Eq, Structural, Clone, Copy)]
pub enum Erc20OperationKind {
    Approve,
    TransferFrom,
}

/// The canonical record of a transaction, the same for every currency.
///
/// `confirmations` is 0 for a transaction in the newest block and grows as
/// blocks are added on top.
#[derive(Debug, PartialEq, Eq, Clone)]
pub struct BlockchainTransaction {
    pub hash: String,
    pub from: Vec<String>,
    pub to: Vec<BlockchainTransactionEntry>,
    pub block_number: u64,
    pub currency: Currency,
    pub fee: Amount,
    pub confirmations: usize,
    pub erc20_operation_kind: Option<Erc20OperationKind>,
}

/// What a [`BlockchainTransaction`] holds.
pub struct TransactionView {
    pub hash: Seq<char>,
    pub from: Seq<Seq<char>>,
    pub to: Seq<EntryView>,
    pub block_number: u64,
    pub currency: Currency,
    pub fee: nat,
    pub confirmations: usize,
    pub erc20_operation_kind: Option<Erc20OperationKind>,
}

impl View for BlockchainTransaction {
    type V = TransactionView;

    open spec fn view(&self) -> TransactionView {
        TransactionView {
            hash: self.hash@,
            from: self.from.deep_view(),
            to: self.to.deep_view(),
            block_number: self.block_number,
            currency: self.currency,
            fee: self.fee@,
            confirmations: self.confirmations,
            erc20_operation_kind: self.erc20_operation_kind,
        }
    }
}

impl DeepView for BlockchainTransaction {
    type V = TransactionView;

    open spec fn deep_view(&self) -> TransactionView {
        self@
    }
}

/// The sum of the values of some entries.
pub open spec fn sum_values(entries: Seq<EntryView>) -> nat
    decreases entries.len(),
{
    if entries.len() == 0 {
        0
    } else {
        sum_values(entries.drop_last()) + entries.last().value
    }
}

/// How many blocks lie on top of the block of a transaction: the number
/// of the newest block less the number of its own block. It is 0 for a
/// transaction in the newest block, and never less: a block that is said to
/// be newer than the newest counts as the newest.
pub open spec fn spec_confirmations(current_block: u64, block_number: u64) -> usize {
    if current_block >= block_number {
        (current_block - block_number) as usize
    } else {
        0
    }
}

/// How many blocks lie on top of the block of a transaction.
pub fn confirmations_of(current_block: u64, block_number: u64) -> (r: usize)
    ensures
        r == spec_confirmations(current_block, block_number),
{
    if current_block >= block_number {
        #[verifier::truncate]
        ((current_block - block_number) as usize)
    } else {
        0
    }
}

} // verus!
