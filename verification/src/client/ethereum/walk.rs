//! The steps between the answers of the node and the transactions that a
//! walk over recent blocks yields.
use super::normalize::{
    eth_response_to_partial_tx, extended_hash, log_parent, partial_tx_to_tx,
    spec_eth_response_to_partial_tx, spec_parse_hex, spec_partial_tx_to_tx,
    spec_stq_response_to_partial_tx, stq_log_to_partial_tx, ADDRESS_LENGTH,
};
use super::responses::{
    BlockByNumberResponse, PartialBlockchainTransaction, PartialTransactionView, StqResponseItem,
    StqResponseItemView, TransactionReceipt, TransactionReceiptView, TransactionResponse,
    TransactionResponseView,
};
use crate::models::amount::Amount;
use crate::models::transaction::{BlockchainTransaction, TransactionView};
use crate::client::error::{Error, ErrorContext, ErrorKind};
use crate::text::{same_text, without_prefix};
use vstd::prelude::*;

verus! {

/// Whether every transaction of a block can be read.
pub open spec fn all_readable(txs: Seq<TransactionResponseView>) -> bool {
    forall|i: int|
        0 <= i < txs.len() ==> (#[trigger] spec_eth_response_to_partial_tx(txs[i])).is_some()
}

/// Whether a transaction moves ether: its first recipient gets more than
/// nothing. Calls of contracts, and with them most operations of tokens,
/// move none.
pub open spec fn moves_value(tx: PartialTransactionView) -> bool {
    tx.to.len() > 0 && tx.to[0].value > 0
}

/// The transactions that a block yields: in the order of the block, those
/// that move ether, up to the first transaction that cannot be read.
pub open spec fn yielded(txs: Seq<TransactionResponseView>) -> Seq<PartialTransactionView>
    decreases txs.len(),
{
    if txs.len() == 0 {
        Seq::empty()
    } else if !all_readable(txs.drop_last()) {
        yielded(txs.drop_last())
    } else {
        match spec_eth_response_to_partial_tx(txs.last()) {
            Some(tx) => if moves_value(tx) {
                yielded(txs.drop_last()).push(tx)
            } else {
                yielded(txs.drop_last())
            },
            None => yielded(txs.drop_last()),
        }
    }
}

/// The transactions of an answer; none where the node has no such block.
pub open spec fn transactions_of(response: BlockByNumberResponse) -> Seq<TransactionResponseView> {
    match response.result {
        Some(block) => block.transactions.deep_view(),
        None => Seq::empty(),
    }
}

/// What a block yields: its transactions, and the error that ended it
/// early, if one did.
#[derive(Debug, Clone)]
pub struct BlockTransactions {
    pub transactions: Vec<PartialBlockchainTransaction>,
    pub failure: Option<Error>,
}

/// Whether a transaction moves ether.
pub fn has_value(tx: &PartialBlockchainTransaction) -> (r: bool)
    ensures
        r == moves_value(tx@),
{
    tx.to.len() > 0 && tx.to[0].value.inner() > 0
}

/// Reads the transactions of a block and keeps those that move ether.
///
/// The transactions before the first one that cannot be read are yielded;
/// that one ends the block with an error of context `Hex`.
pub fn eth_transactions_of_block(response: BlockByNumberResponse) -> (r: BlockTransactions)
    ensures
        r.transactions.deep_view() == yielded(transactions_of(response)),
        r.failure.is_some() == !all_readable(transactions_of(response)),
        r.failure matches Some(e) ==> e.is_context(ErrorKind::Internal, ErrorContext::Hex),
{
    let ghost all = transactions_of(response);
    let mut out: Vec<PartialBlockchainTransaction> = Vec::new();
    let txs: Vec<TransactionResponse> = match response.result {
        Some(block) => block.transactions,
        None => Vec::new(),
    };
    assert(txs.deep_view() =~= all);
    assert(all.take(0) =~= Seq::<TransactionResponseView>::empty());
    let mut i: usize = 0;
    while i < txs.len()
        invariant
            i <= txs.len(),
            txs.deep_view() == all,
            all == transactions_of(response),
            all_readable(all.take(i as int)),
            out.deep_view() == yielded(all.take(i as int)),
        decreases txs.len() - i,
    {
        proof {
            assert(all[i as int] == txs[i as int]@);
            assert(all.take(i + 1).drop_last() =~= all.take(i as int));
            assert(all.take(i + 1).last() == all[i as int]);
        }
        let ghost before = out.deep_view();
        match eth_response_to_partial_tx(&txs[i]) {
            Ok(partial) => {
                if has_value(&partial) {
                    out.push(partial);
                    assert(out.deep_view() =~= before.push(partial@));
                }
                proof {
                    assert forall|k: int| 0 <= k < i + 1 implies (
                    #[trigger] spec_eth_response_to_partial_tx(all.take(i + 1)[k])).is_some() by {
                        if k < i {
                            assert(all.take(i + 1)[k] == all.take(i as int)[k]);
                        }
                    }
                }
            },
            Err(e) => {
                proof {
                    lemma_yielded_stops(all, i as int);
                    assert(spec_eth_response_to_partial_tx(all[i as int]).is_none());
                }
                return BlockTransactions { transactions: out, failure: Some(e) };
            },
        }
        i += 1;
    }
    assert(all.take(i as int) =~= all);
    BlockTransactions { transactions: out, failure: None }
}

/// What a block yields is settled by its transactions up to the first one
/// that cannot be read.
proof fn lemma_yielded_stops(txs: Seq<TransactionResponseView>, k: int)
    requires
        0 <= k < txs.len(),
        all_readable(txs.take(k)),
        spec_eth_response_to_partial_tx(txs[k]).is_none(),
    ensures
        yielded(txs) == yielded(txs.take(k)),
    decreases txs.len(),
{
    if txs.len() == k + 1 {
        assert(txs.drop_last() =~= txs.take(k));
        assert(txs.last() == txs[k]);
    } else {
        let shorter = txs.drop_last();
        assert(shorter.take(k) =~= txs.take(k));
        assert(shorter[k] == txs[k]);
        lemma_yielded_stops(shorter, k);
        assert(!all_readable(shorter));
    }
}

/// Whether a log belongs to the transaction with the given hash, which is
/// written without `0x`.
pub open spec fn belongs_to(log: StqResponseItemView, hash: Seq<char>) -> bool {
    log_parent(log.transaction_hash) == hash
}

/// The logs that belong to a transaction, in their order.
pub open spec fn logs_of(logs: Seq<StqResponseItemView>, hash: Seq<char>) -> Seq<
    StqResponseItemView,
>
    decreases logs.len(),
{
    if logs.len() == 0 {
        Seq::empty()
    } else if belongs_to(logs.last(), hash) {
        logs_of(logs.drop_last(), hash).push(logs.last())
    } else {
        logs_of(logs.drop_last(), hash)
    }
}

fn copy_strings(v: &Vec<String>) -> (r: Vec<String>)
    ensures
        r.deep_view() == v.deep_view(),
{
    let mut r: Vec<String> = Vec::new();
    let mut i: usize = 0;
    while i < v.len()
        invariant
            i <= v.len(),
            r.len() == i,
            forall|j: int| 0 <= j < i ==> (#[trigger] r[j])@ == v[j]@,
        decreases v.len() - i,
    {
        r.push(v[i].clone());
        i += 1;
    }
    assert(r.deep_view() =~= v.deep_view());
    r
}

/// A copy of a log.
pub fn copy_log(log: &StqResponseItem) -> (r: StqResponseItem)
    ensures
        r@ == log@,
{
    StqResponseItem {
        address: log.address.clone(),
        topics: copy_strings(&log.topics),
        data: log.data.clone(),
        block_number: log.block_number.clone(),
        transaction_log_index: log.transaction_log_index.clone(),
        block_hash: log.block_hash.clone(),
        transaction_hash: log.transaction_hash.clone(),
    }
}

/// Whether a log belongs to the transaction with the given hash.
pub fn is_log_of(log: &StqResponseItem, hash: &str) -> (r: bool)
    ensures
        r == belongs_to(log@, hash@),
{
    let own = without_prefix(log.transaction_hash.as_str(), 2);
    same_text(own.as_str(), hash)
}

/// Keeps the logs that belong to the transaction with the given hash.
pub fn logs_of_transaction(logs: &Vec<StqResponseItem>, hash: &str) -> (r: Vec<StqResponseItem>)
    ensures
        r.deep_view() == logs_of(logs.deep_view(), hash@),
{
    let ghost all = logs.deep_view();
    let mut out: Vec<StqResponseItem> = Vec::new();
    let mut i: usize = 0;
    assert(all.take(0) =~= Seq::<StqResponseItemView>::empty());
    while i < logs.len()
        invariant
            i <= logs.len(),
            all == logs.deep_view(),
            out.deep_view() == logs_of(all.take(i as int), hash@),
        decreases logs.len() - i,
    {
        proof {
            assert(all.take(i + 1).drop_last() =~= all.take(i as int));
            assert(all.take(i + 1).last() == logs[i as int]@);
        }
        let ghost before = out.deep_view();
        if is_log_of(&logs[i], hash) {
            out.push(copy_log(&logs[i]));
            assert(out.deep_view() =~= before.push(logs[i as int]@));
        }
        i += 1;
    }
    assert(all.take(i as int) =~= all);
    out
}

/// What is known of the transaction that holds some logs: the gas price
/// it pays, the topics of the token, its receipt, and the newest block.
pub struct ParentView {
    pub gas_price: nat,
    pub approval_topic: Seq<char>,
    pub transfer_topic: Seq<char>,
    pub receipt: Option<TransactionReceiptView>,
    pub current_block: u64,
}

/// The record of one log: the log normalised and completed by the receipt
/// of its transaction. `None` where either step fails.
pub open spec fn token_record(log: StqResponseItemView, parent: ParentView) -> Option<
    TransactionView,
> {
    match spec_stq_response_to_partial_tx(
        log,
        parent.gas_price,
        parent.approval_topic,
        parent.transfer_topic,
    ) {
        Ok(partial) => match spec_partial_tx_to_tx(partial, parent.receipt, parent.current_block) {
            Ok(tx) => Some(tx),
            Err(_) => None,
        },
        Err(_) => None,
    }
}

/// Whether every log has a record.
pub open spec fn all_recorded(logs: Seq<StqResponseItemView>, parent: ParentView) -> bool {
    forall|i: int| 0 <= i < logs.len() ==> (#[trigger] token_record(logs[i], parent)).is_some()
}

/// The records of some logs, in their order, up to the first log that has
/// none.
pub open spec fn token_records(logs: Seq<StqResponseItemView>, parent: ParentView) -> Seq<
    TransactionView,
>
    decreases logs.len(),
{
    if logs.len() == 0 {
        Seq::empty()
    } else if !all_recorded(logs.drop_last(), parent) {
        token_records(logs.drop_last(), parent)
    } else {
        match token_record(logs.last(), parent) {
            Some(tx) => token_records(logs.drop_last(), parent).push(tx),
            None => token_records(logs.drop_last(), parent),
        }
    }
}

/// The records of the operations of the token in one transaction, and the
/// error that ended them early, if one did.
#[derive(Debug, Clone)]
pub struct TokenTransactions {
    pub transactions: Vec<BlockchainTransaction>,
    pub failure: Option<Error>,
}

/// The records of the operations of the token that the transaction `hash`
/// holds, out of the logs of its block.
///
/// Of the logs, those of the transaction are kept, in their order. Each is
/// normalised with the gas price of the transaction and completed by the
/// receipt of the transaction. The first log that fails ends the records
/// with its error.
pub fn stq_transactions_of_parent(
    logs: &Vec<StqResponseItem>,
    hash: &str,
    gas_price: Amount,
    approval_topic: &String,
    transfer_topic: &String,
    receipt: Option<&TransactionReceipt>,
    current_block: u64,
) -> (r: TokenTransactions)
    ensures
        ({
            let parent = ParentView {
                gas_price: gas_price@,
                approval_topic: approval_topic@,
                transfer_topic: transfer_topic@,
                receipt: match receipt {
                    Some(x) => Some(x@),
                    None => None,
                },
                current_block,
            };
            let own = logs_of(logs.deep_view(), hash@);
            &&& r.transactions.deep_view() == token_records(own, parent)
            &&& r.failure.is_some() == !all_recorded(own, parent)
        }),
{
    let ghost parent = ParentView {
        gas_price: gas_price@,
        approval_topic: approval_topic@,
        transfer_topic: transfer_topic@,
        receipt: match receipt {
            Some(x) => Some(x@),
            None => None,
        },
        current_block,
    };
    let own = logs_of_transaction(logs, hash);
    let ghost all = own.deep_view();
    let mut out: Vec<BlockchainTransaction> = Vec::new();
    let mut i: usize = 0;
    assert(all.take(0) =~= Seq::<StqResponseItemView>::empty());
    while i < own.len()
        invariant
            i <= own.len(),
            all == own.deep_view(),
            all == logs_of(logs.deep_view(), hash@),
            parent == (ParentView {
                gas_price: gas_price@,
                approval_topic: approval_topic@,
                transfer_topic: transfer_topic@,
                receipt: match receipt {
                    Some(x) => Some(x@),
                    None => None,
                },
                current_block,
            }),
            all_recorded(all.take(i as int), parent),
            out.deep_view() == token_records(all.take(i as int), parent),
        decreases own.len() - i,
    {
        proof {
            assert(all[i as int] == own[i as int]@);
            assert(all.take(i + 1).drop_last() =~= all.take(i as int));
            assert(all.take(i + 1).last() == all[i as int]);
        }
        let ghost before = out.deep_view();
        let log = copy_log(&own[i]);
        let done = match stq_log_to_partial_tx(log, gas_price, approval_topic, transfer_topic) {
            Ok(partial) => partial_tx_to_tx(partial, receipt, current_block),
            Err(e) => Err(e),
        };
        match done {
            Ok(tx) => {
                out.push(tx);
                proof {
                    assert(token_record(all[i as int], parent) == Some(tx@));
                    assert(out.deep_view() =~= before.push(tx@));
                    assert forall|k: int| 0 <= k < i + 1 implies (#[trigger] token_record(
                        all.take(i + 1)[k],
                        parent,
                    )).is_some() by {
                        if k < i {
                            assert(all.take(i + 1)[k] == all.take(i as int)[k]);
                        }
                    }
                }
            },
            Err(e) => {
                proof {
                    assert(token_record(all[i as int], parent).is_none());
                    lemma_token_records_stop(all, parent, i as int);
                }
                return TokenTransactions { transactions: out, failure: Some(e) };
            },
        }
        i += 1;
    }
    assert(all.take(i as int) =~= all);
    TokenTransactions { transactions: out, failure: None }
}

/// The records are settled by the logs up to the first one that has none.
proof fn lemma_token_records_stop(logs: Seq<StqResponseItemView>, parent: ParentView, k: int)
    requires
        0 <= k < logs.len(),
        all_recorded(logs.take(k), parent),
        token_record(logs[k], parent).is_none(),
    ensures
        token_records(logs, parent) == token_records(logs.take(k), parent),
        !all_recorded(logs, parent),
    decreases logs.len(),
{
    if logs.len() == k + 1 {
        assert(logs.drop_last() =~= logs.take(k));
        assert(logs.last() == logs[k]);
    } else {
        let shorter = logs.drop_last();
        assert(shorter.take(k) =~= logs.take(k));
        assert(shorter[k] == logs[k]);
        lemma_token_records_stop(shorter, parent, k);
    }
}

/// Every log that is kept for a transaction names that transaction.
pub proof fn lemma_logs_of_belong(logs: Seq<StqResponseItemView>, hash: Seq<char>, i: int)
    requires
        0 <= i < logs_of(logs, hash).len(),
    ensures
        belongs_to(logs_of(logs, hash)[i], hash),
        exists|k: int| 0 <= k < logs.len() && logs[k] == logs_of(logs, hash)[i],
    decreases logs.len(),
{
    if logs.len() > 0 {
        let before = logs.drop_last();
        if i < logs_of(before, hash).len() {
            lemma_logs_of_belong(before, hash, i);
            let k = choose|k: int| 0 <= k < before.len() && before[k] == logs_of(before, hash)[i];
            assert(logs[k] == logs_of(logs, hash)[i]);
        } else {
            assert(logs[logs.len() - 1] == logs_of(logs, hash)[i]);
        }
    }
}

/// Where every log of a transaction has a record, there is one record for
/// each, in the order of the logs.
proof fn lemma_token_records_all(logs: Seq<StqResponseItemView>, parent: ParentView)
    requires
        all_recorded(logs, parent),
    ensures
        token_records(logs, parent).len() == logs.len(),
        forall|i: int|
            0 <= i < logs.len() ==> Some(#[trigger] token_records(logs, parent)[i]) == token_record(
                logs[i],
                parent,
            ),
    decreases logs.len(),
{
    if logs.len() > 0 {
        let before = logs.drop_last();
        assert forall|i: int| 0 <= i < before.len() implies (#[trigger] token_record(
            before[i],
            parent,
        )).is_some() by {
            assert(before[i] == logs[i]);
        }
        lemma_token_records_all(before, parent);
        assert(token_record(logs[logs.len() - 1], parent).is_some());
    }
}

/// The operations of the token in one transaction, where each of its logs
/// has a record: there is exactly one record for each log of the
/// transaction and none for a log of another. The record of a log has the
/// hash of the transaction, a colon and the index of the log; the sender
/// and the recipient of its own topics; and the fee of the transaction,
/// the gas that its receipt reports times its gas price, which all records
/// share, as they share their confirmations.
pub proof fn law_token_records_of_parent(
    logs: Seq<StqResponseItemView>,
    hash: Seq<char>,
    parent: ParentView,
    i: int,
)
    requires
        all_recorded(logs_of(logs, hash), parent),
        0 <= i < logs_of(logs, hash).len(),
    ensures
        ({
            let own = logs_of(logs, hash);
            let record = token_records(own, parent)[i];
            &&& token_records(own, parent).len() == own.len()
            &&& belongs_to(own[i], hash)
            &&& parent.receipt matches Some(receipt)
            &&& spec_parse_hex(receipt.gas_used, u128::MAX as nat) matches Some(gas_used)
            &&& spec_parse_hex(own[i].transaction_log_index, u128::MAX as nat) matches Some(index)
            &&& record.hash == extended_hash(hash, index)
            &&& record.fee == gas_used * parent.gas_price
            &&& record.confirmations == token_records(own, parent)[0].confirmations
            &&& own[i].topics.len() >= 3
            &&& record.from == seq![own[i].topics[1].skip(own[i].topics[1].len() - ADDRESS_LENGTH)]
            &&& record.to.len() == 1
            &&& record.to[0].address == own[i].topics[2].skip(
                own[i].topics[2].len() - ADDRESS_LENGTH,
            )
        }),
{
    let own = logs_of(logs, hash);
    lemma_token_records_all(own, parent);
    lemma_logs_of_belong(logs, hash, i);
    assert(token_record(own[i], parent).is_some());
    assert(token_record(own[0], parent).is_some());
}

} // verus!
