//! How the answers of an Ethereum node become canonical transactions.
use super::responses::{
    PartialBlockchainTransaction, PartialTransactionView, StqResponseItem, StqResponseItemView,
    TransactionReceipt, TransactionReceiptView, TransactionResponse, TransactionResponseView,
};
use crate::client::error::{Error, ErrorContext, ErrorKind};
use crate::models::amount::Amount;
use crate::models::currency::Currency;
use crate::models::transaction::{
    confirmations_of, spec_confirmations, BlockchainTransaction, BlockchainTransactionEntry,
    EntryView, Erc20OperationKind, TransactionView,
};
use crate::text::{
    chars_of, last_chars, number_text, number_to_text, parse_unsigned, skip_chars,
    spec_last_chars, spec_parse_unsigned, spec_skip_chars, spec_without_prefix, string_of,
    without_prefix,
};
use vstd::prelude::*;

verus! {

/// The number of characters of an address.
pub const ADDRESS_LENGTH: usize = 40;

/// The number that a text writes in hexadecimal after a prefix of two
/// characters, as the standard library reads an unsigned number of at most
/// `max`. `None` where the text is shorter than its prefix or writes no such
/// number.
pub open spec fn spec_parse_hex(s: Seq<char>, max: nat) -> Option<nat> {
    if s.len() < 2 {
        None
    } else {
        spec_parse_unsigned(s.skip(2), true, max)
    }
}

/// The low 64 bits of a number.
pub open spec fn spec_low_64(v: nat) -> u64 {
    (v % 0x1_0000_0000_0000_0000) as u64
}

/// The low 64 bits of a number.
pub fn low_64(v: u128) -> (r: u64)
    ensures
        r == spec_low_64(v as nat),
{
    let low: u128 = v & 0xffff_ffff_ffff_ffff;
    assert(low == v % 0x1_0000_0000_0000_0000) by (bit_vector)
        requires
            low == v & 0xffff_ffff_ffff_ffff,
    ;
    low as u64
}

/// Reads a number of up to 128 bits written as `0x` and hexadecimal digits.
/// The error has the context `Hex`.
pub fn parse_hex(s: &str) -> (r: Result<u128, Error>)
    ensures
        match r {
            Ok(v) => spec_parse_hex(s@, u128::MAX as nat) == Some(v as nat),
            Err(e) => spec_parse_hex(s@, u128::MAX as nat).is_none() && e.is_context(
                ErrorKind::Internal,
                ErrorContext::Hex,
            ),
        },
{
    let v = chars_of(s);
    if v.len() < 2 {
        return Err(Error::with_context(ErrorKind::Internal, ErrorContext::Hex));
    }
    match parse_unsigned(&v, 2, true, u128::MAX) {
        Some(n) => Ok(n),
        None => Err(Error::with_context(ErrorKind::Internal, ErrorContext::Hex)),
    }
}

/// Reads a number of up to 64 bits written as `0x` and hexadecimal digits.
/// The error has the context `Hex`.
pub fn parse_hex_u64(s: &str) -> (r: Result<u64, Error>)
    ensures
        match r {
            Ok(v) => spec_parse_hex(s@, u64::MAX as nat) == Some(v as nat),
            Err(e) => spec_parse_hex(s@, u64::MAX as nat).is_none() && e.is_context(
                ErrorKind::Internal,
                ErrorContext::Hex,
            ),
        },
{
    let v = chars_of(s);
    if v.len() < 2 {
        return Err(Error::with_context(ErrorKind::Internal, ErrorContext::Hex));
    }
    match parse_unsigned(&v, 2, true, u64::MAX as u128) {
        Some(n) => Ok(n as u64),
        None => Err(Error::with_context(ErrorKind::Internal, ErrorContext::Hex)),
    }
}

/// The address that stands for the recipient of a transaction which has
/// none, because it creates a contract.
pub open spec fn no_recipient() -> Seq<char> {
    seq!['0']
}

/// A transaction of the node in canonical form, the fee and the
/// confirmations left open. `None` where a number is no hexadecimal number
/// or a hash or an address is shorter than its `0x`.
pub open spec fn spec_eth_response_to_partial_tx(resp: TransactionResponseView) -> Option<
    PartialTransactionView,
> {
    let block_number = spec_parse_hex(resp.block_number, u128::MAX as nat);
    let value = spec_parse_hex(resp.value, u128::MAX as nat);
    let gas_price = spec_parse_hex(resp.gas_price, u128::MAX as nat);
    let from = spec_skip_chars(resp.from, 2);
    let to = match resp.to {
        Some(t) => spec_skip_chars(t, 2),
        None => Some(no_recipient()),
    };
    let hash = spec_skip_chars(resp.hash, 2);
    if block_number.is_some() && value.is_some() && gas_price.is_some() && from.is_some()
        && to.is_some() && hash.is_some() {
        Some(
            PartialTransactionView {
                hash: hash.unwrap(),
                from: seq![from.unwrap()],
                to: seq![EntryView { address: to.unwrap(), value: value.unwrap() }],
                block_number: spec_low_64(block_number.unwrap()),
                currency: Currency::Eth,
                gas_price: gas_price.unwrap(),
                erc20_operation_kind: None,
            },
        )
    } else {
        None
    }
}

fn hex_failure() -> (e: Error)
    ensures
        e.is_context(ErrorKind::Internal, ErrorContext::Hex),
{
    Error::with_context(ErrorKind::Internal, ErrorContext::Hex)
}

/// Turns a transaction of the node into canonical form, the fee and the
/// confirmations left open: one sender, and one recipient with the value
/// moved. From the hash and the addresses the `0x` is taken off. A
/// transaction without recipient gets the recipient `0`.
///
/// It fails, with the context `Hex`, where the block number, the value or
/// the gas price is no hexadecimal number of up to 128 bits, or the hash or
/// an address is shorter than two characters.
pub fn eth_response_to_partial_tx(resp: &TransactionResponse) -> (r: Result<
    PartialBlockchainTransaction,
    Error,
>)
    ensures
        match r {
            Ok(tx) => spec_eth_response_to_partial_tx(resp@) == Some(tx@),
            Err(e) => spec_eth_response_to_partial_tx(resp@).is_none() && e.is_context(
                ErrorKind::Internal,
                ErrorContext::Hex,
            ),
        },
{
    let block_number = low_64(parse_hex(resp.block_number.as_str())?);
    let value = Amount::new(parse_hex(resp.value.as_str())?);
    let gas_price = Amount::new(parse_hex(resp.gas_price.as_str())?);
    let sender = match skip_chars(resp.from.as_str(), 2) {
        Some(s) => s,
        None => {
            return Err(hex_failure());
        },
    };
    let to_address = match &resp.to {
        Some(t) => match skip_chars(t.as_str(), 2) {
            Some(s) => s,
            None => {
                return Err(hex_failure());
            },
        },
        None => {
            proof {
                reveal_strlit("0");
            }
            let zero = String::from_str("0");
            assert(zero@ =~= no_recipient());
            zero
        },
    };
    let hash = match skip_chars(resp.hash.as_str(), 2) {
        Some(s) => s,
        None => {
            return Err(hex_failure());
        },
    };
    let mut from: Vec<String> = Vec::new();
    from.push(sender);
    let mut to: Vec<BlockchainTransactionEntry> = Vec::new();
    to.push(BlockchainTransactionEntry { address: to_address, value });
    assert(from.deep_view() =~= seq![sender@]);
    assert(to.deep_view() =~= seq![EntryView { address: to_address@, value: value@ }]);
    Ok(
        PartialBlockchainTransaction {
            hash,
            from,
            to,
            block_number,
            currency: Currency::Eth,
            gas_price,
            erc20_operation_kind: None,
        },
    )
}

/// The operation that the first topic of a log names: an approval for the
/// approval topic, else a transfer for the transfer topic, else none.
pub open spec fn spec_operation_kind(
    topic: Seq<char>,
    approval_topic: Seq<char>,
    transfer_topic: Seq<char>,
) -> Option<Erc20OperationKind> {
    if topic == approval_topic {
        Some(Erc20OperationKind::Approve)
    } else if topic == transfer_topic {
        Some(Erc20OperationKind::TransferFrom)
    } else {
        None
    }
}

/// The hash of the transaction that holds a log, as the records write it:
/// the hash that the log names without its `0x`.
pub open spec fn log_parent(transaction_hash: Seq<char>) -> Seq<char> {
    spec_without_prefix(transaction_hash, 2)
}

/// The identity of an operation of a token: the hash of the transaction
/// that holds it, a colon, and the index of its log in decimal.
pub open spec fn extended_hash(parent: Seq<char>, log_index: nat) -> Seq<char> {
    parent + seq![':'] + number_text(log_index, false)
}

/// A log of the token contract in canonical form, the fee and the
/// confirmations left open.
///
/// The sender and the recipient are the last 40 characters of the second and
/// the third topic. A log with fewer than three topics, or with one of these
/// two shorter than an address, has the error context `Topics`; after that, a
/// number that is no hexadecimal number has the error context `Hex`. The
/// hash is that of the transaction which holds the log, a colon, and the
/// index of the log.
pub open spec fn spec_stq_response_to_partial_tx(
    log: StqResponseItemView,
    gas_price: nat,
    approval_topic: Seq<char>,
    transfer_topic: Seq<char>,
) -> Result<PartialTransactionView, ErrorContext> {
    if log.topics.len() < 3 || log.topics[1].len() < ADDRESS_LENGTH || log.topics[2].len()
        < ADDRESS_LENGTH {
        Err(ErrorContext::Topics)
    } else {
        let block_number = spec_parse_hex(log.block_number, u128::MAX as nat);
        let value = spec_parse_hex(log.data, u128::MAX as nat);
        let log_index = spec_parse_hex(log.transaction_log_index, u128::MAX as nat);
        if block_number.is_none() || value.is_none() || log_index.is_none() {
            Err(ErrorContext::Hex)
        } else {
            Ok(
                PartialTransactionView {
                    hash: extended_hash(log_parent(log.transaction_hash), log_index.unwrap()),
                    from: seq![spec_last_chars(log.topics[1], ADDRESS_LENGTH as nat).unwrap()],
                    to: seq![
                        EntryView {
                            address: spec_last_chars(log.topics[2], ADDRESS_LENGTH as nat).unwrap(),
                            value: value.unwrap(),
                        },
                    ],
                    block_number: spec_low_64(block_number.unwrap()),
                    currency: Currency::Stq,
                    gas_price,
                    erc20_operation_kind: spec_operation_kind(
                        log.topics[0],
                        approval_topic,
                        transfer_topic,
                    ),
                },
            )
        }
    }
}

fn topics_failure() -> (e: Error)
    ensures
        e.is_context(ErrorKind::Internal, ErrorContext::Topics),
{
    Error::with_context(ErrorKind::Internal, ErrorContext::Topics)
}

/// Turns a log of the token contract into canonical form, the fee and the
/// confirmations left open. `gas_price` is that of the transaction which
/// holds the log.
pub fn stq_log_to_partial_tx(
    log: StqResponseItem,
    gas_price: Amount,
    approval_topic: &String,
    transfer_topic: &String,
) -> (r: Result<PartialBlockchainTransaction, Error>)
    ensures
        match r {
            Ok(tx) => spec_stq_response_to_partial_tx(
                log@,
                gas_price@,
                approval_topic@,
                transfer_topic@,
            ) == Ok::<PartialTransactionView, ErrorContext>(tx@),
            Err(e) => spec_stq_response_to_partial_tx(
                log@,
                gas_price@,
                approval_topic@,
                transfer_topic@,
            ) matches Err(c) && e.is_context(ErrorKind::Internal, c),
        },
{
    if log.topics.len() < 3 {
        return Err(topics_failure());
    }
    let erc20_operation_kind = if log.topics[0] == *approval_topic {
        Some(Erc20OperationKind::Approve)
    } else if log.topics[0] == *transfer_topic {
        Some(Erc20OperationKind::TransferFrom)
    } else {
        None
    };
    let sender = match last_chars(log.topics[1].as_str(), ADDRESS_LENGTH) {
        Some(s) => s,
        None => {
            return Err(topics_failure());
        },
    };
    let recipient = match last_chars(log.topics[2].as_str(), ADDRESS_LENGTH) {
        Some(s) => s,
        None => {
            return Err(topics_failure());
        },
    };
    let block_number = low_64(parse_hex(log.block_number.as_str())?);
    let value = Amount::new(parse_hex(log.data.as_str())?);
    let log_index = parse_hex(log.transaction_log_index.as_str())?;
    let mut hash = without_prefix(log.transaction_hash.as_str(), 2);
    let ghost parent = hash@;
    proof {
        reveal_strlit(":");
    }
    hash.append(":");
    let index_text = string_of(&number_to_text(log_index, false));
    hash.append(index_text.as_str());
    assert(hash@ =~= extended_hash(parent, log_index as nat));
    let mut from: Vec<String> = Vec::new();
    from.push(sender);
    let mut to: Vec<BlockchainTransactionEntry> = Vec::new();
    to.push(BlockchainTransactionEntry { address: recipient, value });
    assert(from.deep_view() =~= seq![sender@]);
    assert(to.deep_view() =~= seq![EntryView { address: recipient@, value: value@ }]);
    Ok(
        PartialBlockchainTransaction {
            hash,
            from,
            to,
            block_number,
            currency: Currency::Stq,
            gas_price,
            erc20_operation_kind,
        },
    )
}

/// A transaction completed by its receipt.
///
/// The fee is the gas that the receipt reports times the gas price of the
/// transaction. The confirmations are counted from the block that the
/// receipt names up to `current_block`.
pub open spec fn spec_partial_tx_to_tx(
    tx: PartialTransactionView,
    receipt: Option<TransactionReceiptView>,
    current_block: u64,
) -> Result<TransactionView, (ErrorKind, Option<ErrorContext>)> {
    match receipt {
        None => Err((ErrorKind::NoReceipt, None)),
        Some(receipt) => {
            let gas_used = spec_parse_hex(receipt.gas_used, u128::MAX as nat);
            let block_number = spec_parse_hex(receipt.block_number, u128::MAX as nat);
            if gas_used.is_none() || block_number.is_none() {
                Err((ErrorKind::Internal, Some(ErrorContext::Hex)))
            } else if gas_used.unwrap() * tx.gas_price > u128::MAX {
                Err((ErrorKind::Internal, Some(ErrorContext::Overflow)))
            } else {
                Ok(
                    TransactionView {
                        hash: tx.hash,
                        from: tx.from,
                        to: tx.to,
                        block_number: tx.block_number,
                        currency: tx.currency,
                        fee: gas_used.unwrap() * tx.gas_price,
                        confirmations: spec_confirmations(
                            current_block,
                            spec_low_64(block_number.unwrap()),
                        ),
                        erc20_operation_kind: tx.erc20_operation_kind,
                    },
                )
            }
        },
    }
}

/// Completes a transaction with its receipt.
///
/// Without a receipt the error has the kind `NoReceipt`: the node has not
/// got one yet. A receipt whose numbers are no hexadecimal numbers gives the
/// context `Hex`, and a fee that does not fit an amount the context
/// `Overflow`.
///
/// Whenever it succeeds, the fee is the gas used times the gas price.
pub fn partial_tx_to_tx(
    tx: PartialBlockchainTransaction,
    receipt: Option<&TransactionReceipt>,
    current_block: u64,
) -> (r: Result<BlockchainTransaction, Error>)
    ensures
        match r {
            Ok(t) => spec_partial_tx_to_tx(
                tx@,
                match receipt {
                    Some(x) => Some(x@),
                    None => None,
                },
                current_block,
            ) == Ok::<TransactionView, (ErrorKind, Option<ErrorContext>)>(t@),
            Err(e) => spec_partial_tx_to_tx(
                tx@,
                match receipt {
                    Some(x) => Some(x@),
                    None => None,
                },
                current_block,
            ) matches Err(f) && e.kind == f.0 && e.context == f.1 && e.source.is_none()
                && e.message@.len() == 0,
        },
        r matches Ok(t) ==> receipt matches Some(x) && Some(t.fee@) == match spec_parse_hex(
            x.gas_used@,
            u128::MAX as nat,
        ) {
            Some(gas_used) => Some(gas_used * tx.gas_price@),
            None => None,
        },
{
    let receipt = match receipt {
        Some(receipt) => receipt,
        None => {
            return Err(Error::of_kind(ErrorKind::NoReceipt));
        },
    };
    let gas_used = Amount::new(parse_hex(receipt.gas_used.as_str())?);
    let block_number = low_64(parse_hex(receipt.block_number.as_str())?);
    let fee = match gas_used.checked_mul(tx.gas_price) {
        Some(fee) => fee,
        None => {
            return Err(Error::with_context(ErrorKind::Internal, ErrorContext::Overflow));
        },
    };
    let confirmations = confirmations_of(current_block, block_number);
    Ok(
        BlockchainTransaction {
            hash: tx.hash,
            from: tx.from,
            to: tx.to,
            block_number: tx.block_number,
            currency: tx.currency,
            fee,
            confirmations,
            erc20_operation_kind: tx.erc20_operation_kind,
        },
    )
}

/// A log with three topics, of which the second and the third are as long
/// as an address or longer, and with hexadecimal numbers, is always
/// normalised; its sender and its recipient are exactly the last 40
/// characters of its second and of its third topic, and its value is the
/// number in its data.
pub proof fn law_erc20_addresses(
    log: StqResponseItemView,
    gas_price: nat,
    approval_topic: Seq<char>,
    transfer_topic: Seq<char>,
)
    requires
        log.topics.len() >= 3,
        log.topics[1].len() >= ADDRESS_LENGTH,
        log.topics[2].len() >= ADDRESS_LENGTH,
        spec_parse_hex(log.data, u128::MAX as nat).is_some(),
        spec_parse_hex(log.block_number, u128::MAX as nat).is_some(),
        spec_parse_hex(log.transaction_log_index, u128::MAX as nat).is_some(),
    ensures
        spec_stq_response_to_partial_tx(log, gas_price, approval_topic, transfer_topic) matches Ok(
            tx,
        ) && tx.from == seq![log.topics[1].skip(log.topics[1].len() - ADDRESS_LENGTH)] && tx.to
            == seq![
            EntryView {
                address: log.topics[2].skip(log.topics[2].len() - ADDRESS_LENGTH),
                value: spec_parse_hex(log.data, u128::MAX as nat).unwrap(),
            },
        ] && tx.from[0].len() == ADDRESS_LENGTH && tx.to[0].address.len() == ADDRESS_LENGTH
            && tx.currency == Currency::Stq && tx.gas_price == gas_price,
{
}

/// A log that lacks its second or third topic is never normalised: it has
/// the error context `Topics`.
pub proof fn law_erc20_missing_topics(
    log: StqResponseItemView,
    gas_price: nat,
    approval_topic: Seq<char>,
    transfer_topic: Seq<char>,
)
    requires
        log.topics.len() < 3,
    ensures
        spec_stq_response_to_partial_tx(log, gas_price, approval_topic, transfer_topic) == Err::<
            PartialTransactionView,
            ErrorContext,
        >(ErrorContext::Topics),
{
}

/// The fee of a completed transaction is the gas that its receipt reports
/// times its own gas price; its record is otherwise that of the
/// transaction before its receipt.
pub proof fn law_fee_is_gas_used_times_gas_price(
    tx: PartialTransactionView,
    receipt: TransactionReceiptView,
    current_block: u64,
)
    ensures
        spec_partial_tx_to_tx(tx, Some(receipt), current_block) matches Ok(t) ==> spec_parse_hex(
            receipt.gas_used,
            u128::MAX as nat,
        ) matches Some(gas_used) && t.fee == gas_used * tx.gas_price && t.hash == tx.hash && t.from
            == tx.from && t.to == tx.to,
{
}

} // verus!
