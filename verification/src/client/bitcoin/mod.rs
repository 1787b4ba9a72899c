//! The Bitcoin client: how the answers of a node become canonical
//! transactions.
pub mod requests;
pub mod responses;
pub mod walk;

pub use self::requests::BitcoinClientImpl;
pub use self::walk::{BlockWalk, WalkRequest};

use self::responses::{
    InputTransactionView, RawTransactionView, RpcRawTransaction,
    RpcRawTransactionWithMaybeCoinbaseVins, ScriptPubKey, Vin, VinView, Vout, VoutView,
};
use super::error::{Error, ErrorContext, ErrorKind};
use crate::models::amount::Amount;
use crate::models::currency::Currency;
use crate::models::transaction::{
    confirmations_of, spec_confirmations, sum_values, BlockchainTransaction,
    BlockchainTransactionEntry, EntryView, TransactionView,
};
use crate::models::utxo::{Utxo, UtxoView};
use vstd::prelude::*;

verus! {

/// The address that stands for an output which pays to no address.
pub open spec fn no_address() -> Seq<char> {
    seq!['0']
}

/// The first address of a script, or `"0"` where it has none.
pub open spec fn address_or_zero(addresses: Seq<Seq<char>>) -> Seq<char> {
    if addresses.len() > 0 {
        addresses[0]
    } else {
        no_address()
    }
}

/// An output as an entry: its address, or `"0"`, and its value.
pub open spec fn output_entry(vout: VoutView) -> EntryView {
    EntryView { address: address_or_zero(vout.addresses), value: vout.value }
}

/// The outputs of a transaction as entries, in their order.
pub open spec fn output_entries(vouts: Seq<VoutView>) -> Seq<EntryView> {
    Seq::new(vouts.len(), |i: int| output_entry(vouts[i]))
}

/// The transaction with the given id among those fetched for the inputs.
/// Where several have it, the last one counts.
pub open spec fn find_transaction(
    in_txs: Seq<InputTransactionView>,
    txid: Seq<char>,
) -> Option<InputTransactionView>
    decreases in_txs.len(),
{
    if in_txs.len() == 0 {
        None
    } else if in_txs.last().txid == txid {
        Some(in_txs.last())
    } else {
        find_transaction(in_txs.drop_last(), txid)
    }
}

/// The output that an input spends, as an entry; `None` where the
/// transaction was not fetched or has no output at that index.
pub open spec fn resolve_input(in_txs: Seq<InputTransactionView>, vin: VinView) -> Option<
    EntryView,
> {
    match find_transaction(in_txs, vin.txid) {
        None => None,
        Some(tx) => if vin.vout < tx.vout.len() {
            Some(output_entry(tx.vout[vin.vout as int]))
        } else {
            None
        },
    }
}

/// Whether every input can be resolved.
pub open spec fn all_resolved(in_txs: Seq<InputTransactionView>, vins: Seq<VinView>) -> bool {
    forall|i: int| 0 <= i < vins.len() ==> (#[trigger] resolve_input(in_txs, vins[i])).is_some()
}

/// The outputs that the inputs spend, in the order of the inputs.
pub open spec fn resolved_inputs(
    in_txs: Seq<InputTransactionView>,
    vins: Seq<VinView>,
) -> Seq<EntryView> {
    Seq::new(vins.len(), |i: int| resolve_input(in_txs, vins[i]).unwrap())
}

/// The addresses of the entries, in their order, without those that are
/// `"0"`. An address that occurs twice stays twice.
pub open spec fn sender_addresses(entries: Seq<EntryView>) -> Seq<Seq<char>>
    decreases entries.len(),
{
    if entries.len() == 0 {
        Seq::empty()
    } else if entries.last().address == no_address() {
        sender_addresses(entries.drop_last())
    } else {
        sender_addresses(entries.drop_last()).push(entries.last().address)
    }
}

/// The canonical form of a Bitcoin transaction in the block `block_number`,
/// given the transactions that its inputs refer to and the number of the
/// newest block.
///
/// The fee is what the inputs bring less what the outputs take. It counts
/// every resolved input, also those that pay from no address; those are left
/// out of the senders only. The confirmations are the blocks on top of the
/// block of the transaction: 0 in the newest block.
pub open spec fn spec_rpc_tx_to_tx(
    tx: RawTransactionView,
    in_txs: Seq<InputTransactionView>,
    block_number: u64,
    current_block: u64,
) -> Result<TransactionView, ErrorContext> {
    let from = resolved_inputs(in_txs, tx.vin);
    let to = output_entries(tx.vout);
    if !all_resolved(in_txs, tx.vin) {
        Err(ErrorContext::BitcoinRpcConversion)
    } else if sum_values(from) > u128::MAX || sum_values(to) > u128::MAX || sum_values(from)
        < sum_values(to) {
        Err(ErrorContext::Overflow)
    } else {
        Ok(
            TransactionView {
                hash: tx.txid,
                from: sender_addresses(from),
                to,
                block_number,
                currency: Currency::Btc,
                fee: (sum_values(from) - sum_values(to)) as nat,
                confirmations: spec_confirmations(current_block, block_number),
                erc20_operation_kind: None,
            },
        )
    }
}

/// The sum of the values of some unspent outputs.
pub open spec fn sum_utxos(utxos: Seq<UtxoView>) -> nat
    decreases utxos.len(),
{
    if utxos.len() == 0 {
        0
    } else {
        sum_utxos(utxos.drop_last()) + utxos.last().value
    }
}

/// The sum of a prefix is at most the sum of the whole.
pub proof fn lemma_sum_values_prefix(entries: Seq<EntryView>, k: int)
    requires
        0 <= k <= entries.len(),
    ensures
        sum_values(entries.take(k)) <= sum_values(entries),
    decreases entries.len() - k,
{
    if k == entries.len() {
        assert(entries.take(k) =~= entries);
    } else {
        lemma_sum_values_prefix(entries.drop_last(), k);
        assert(entries.drop_last().take(k) =~= entries.take(k));
    }
}

proof fn lemma_sum_utxos_prefix(utxos: Seq<UtxoView>, k: int)
    requires
        0 <= k <= utxos.len(),
    ensures
        sum_utxos(utxos.take(k)) <= sum_utxos(utxos),
    decreases utxos.len() - k,
{
    if k == utxos.len() {
        assert(utxos.take(k) =~= utxos);
    } else {
        lemma_sum_utxos_prefix(utxos.drop_last(), k);
        assert(utxos.drop_last().take(k) =~= utxos.take(k));
    }
}

fn address_of(script: &ScriptPubKey) -> (r: String)
    ensures
        r@ == address_or_zero(script.addresses.deep_view()),
{
    if script.addresses.len() > 0 {
        script.addresses[0].clone()
    } else {
        proof {
            reveal_strlit("0");
        }
        let zero = String::from_str("0");
        assert(zero@ =~= no_address());
        zero
    }
}

fn entry_of(vout: &Vout) -> (r: BlockchainTransactionEntry)
    ensures
        r@ == output_entry(vout@),
{
    BlockchainTransactionEntry { address: address_of(&vout.script_pub_key), value: vout.value }
}

fn position_of_transaction(
    in_txs: &Vec<RpcRawTransactionWithMaybeCoinbaseVins>,
    txid: &String,
) -> (r: Option<usize>)
    ensures
        match r {
            Some(i) => i < in_txs.len() && find_transaction(in_txs.deep_view(), txid@) == Some(
                in_txs[i as int]@,
            ),
            None => find_transaction(in_txs.deep_view(), txid@).is_none(),
        },
{
    let ghost all = in_txs.deep_view();
    let mut k: usize = in_txs.len();
    assert(all.take(k as int) =~= all);
    while k > 0
        invariant
            k <= in_txs.len(),
            all == in_txs.deep_view(),
            find_transaction(all, txid@) == find_transaction(all.take(k as int), txid@),
        decreases k,
    {
        k -= 1;
        assert(all.take(k + 1).last() == in_txs[k as int]@);
        assert(all.take(k + 1).drop_last() =~= all.take(k as int));
        if in_txs[k].txid == *txid {
            return Some(k);
        }
    }
    None
}

fn resolve(in_txs: &Vec<RpcRawTransactionWithMaybeCoinbaseVins>, vin: &Vin) -> (r: Option<
    BlockchainTransactionEntry,
>)
    ensures
        r.is_some() == resolve_input(in_txs.deep_view(), vin@).is_some(),
        r matches Some(e) ==> resolve_input(in_txs.deep_view(), vin@) == Some(e@),
{
    match position_of_transaction(in_txs, &vin.txid) {
        None => None,
        Some(i) => {
            let tx = &in_txs[i];
            if vin.vout < tx.vout.len() {
                Some(entry_of(&tx.vout[vin.vout]))
            } else {
                None
            }
        },
    }
}

/// The sum of the values of the entries, or `None` where it does not fit an
/// amount.
pub fn sum_entries(entries: &Vec<BlockchainTransactionEntry>) -> (r: Option<Amount>)
    ensures
        r == if sum_values(entries.deep_view()) <= u128::MAX {
            Some(Amount(sum_values(entries.deep_view()) as u128))
        } else {
            None
        },
{
    let ghost all = entries.deep_view();
    let mut acc = Amount::new(0);
    let mut i: usize = 0;
    while i < entries.len()
        invariant
            i <= entries.len(),
            all == entries.deep_view(),
            acc@ == sum_values(all.take(i as int)),
        decreases entries.len() - i,
    {
        proof {
            assert(all.take(i + 1).drop_last() =~= all.take(i as int));
            assert(all.take(i + 1).last() == entries[i as int]@);
            lemma_sum_values_prefix(all, i + 1);
        }
        match acc.checked_add(entries[i].value) {
            Some(next) => {
                acc = next;
            },
            None => {
                return None;
            },
        }
        i += 1;
    }
    assert(all.take(i as int) =~= all);
    Some(acc)
}

/// The total of some unspent outputs: the balance of the address that they
/// belong to. An error of context `Overflow` where it does not fit an amount.
pub fn balance_of(utxos: &Vec<Utxo>) -> (r: Result<Amount, Error>)
    ensures
        match r {
            Ok(a) => a@ == sum_utxos(utxos.deep_view()),
            Err(e) => sum_utxos(utxos.deep_view()) > u128::MAX && e.is_context(
                ErrorKind::Internal,
                ErrorContext::Overflow,
            ),
        },
{
    let ghost all = utxos.deep_view();
    let mut acc = Amount::new(0);
    let mut i: usize = 0;
    while i < utxos.len()
        invariant
            i <= utxos.len(),
            all == utxos.deep_view(),
            acc@ == sum_utxos(all.take(i as int)),
        decreases utxos.len() - i,
    {
        proof {
            assert(all.take(i + 1).drop_last() =~= all.take(i as int));
            assert(all.take(i + 1).last() == utxos[i as int]@);
            lemma_sum_utxos_prefix(all, i + 1);
        }
        match acc.checked_add(utxos[i].value) {
            Some(next) => {
                acc = next;
            },
            None => {
                return Err(Error::with_context(ErrorKind::Internal, ErrorContext::Overflow));
            },
        }
        i += 1;
    }
    assert(all.take(i as int) =~= all);
    Ok(acc)
}

/// Turns a transaction of the node, with the transactions that its inputs
/// refer to, into its canonical form.
///
/// It fails with context `BitcoinRpcConversion` where an input names a
/// transaction that is not among `in_txs`, or an output that the transaction
/// does not have; and with context `Overflow` where a sum does not fit an
/// amount or the outputs take more than the inputs bring.
///
/// Whenever it succeeds, the fee and the outputs together are exactly what
/// the resolved inputs bring, and the confirmations are `current_block`
/// less `block_number`, or 0 where that would be less than nothing.
pub fn rpc_tx_to_tx(
    tx: RpcRawTransaction,
    in_txs: Vec<RpcRawTransactionWithMaybeCoinbaseVins>,
    block_number: u64,
    current_block: u64,
) -> (r: Result<BlockchainTransaction, Error>)
    ensures
        match r {
            Ok(t) => spec_rpc_tx_to_tx(
                tx@,
                in_txs.deep_view(),
                block_number,
                current_block,
            ) == Ok::<
                TransactionView,
                ErrorContext,
            >(t@),
            Err(e) => spec_rpc_tx_to_tx(
                tx@,
                in_txs.deep_view(),
                block_number,
                current_block,
            ) matches Err(c)
                && e.is_context(ErrorKind::Internal, c),
        },
        r matches Ok(t) ==> t.fee@ + sum_values(t@.to) == sum_values(
            resolved_inputs(in_txs.deep_view(), tx@.vin),
        ),
        r matches Ok(t) ==> t.confirmations == spec_confirmations(current_block, block_number)
            && t.block_number == block_number,
{
    let ghost ins = in_txs.deep_view();
    let ghost vins = tx@.vin;
    let ghost vouts = tx@.vout;
    let mut from: Vec<BlockchainTransactionEntry> = Vec::new();
    let mut i: usize = 0;
    while i < tx.vin.len()
        invariant
            i <= tx.vin.len(),
            ins == in_txs.deep_view(),
            vins == tx.vin.deep_view(),
            from.len() == i,
            forall|j: int| 0 <= j < i ==> (#[trigger] resolve_input(ins, vins[j])) == Some(from[j]@),
        decreases tx.vin.len() - i,
    {
        assert(vins[i as int] == tx.vin[i as int]@);
        match resolve(&in_txs, &tx.vin[i]) {
            Some(entry) => {
                from.push(entry);
            },
            None => {
                return Err(
                    Error::with_context(ErrorKind::Internal, ErrorContext::BitcoinRpcConversion),
                );
            },
        }
        i += 1;
    }
    assert(all_resolved(ins, vins));
    assert(from.deep_view() =~= resolved_inputs(ins, vins));
    let mut to: Vec<BlockchainTransactionEntry> = Vec::new();
    let mut k: usize = 0;
    while k < tx.vout.len()
        invariant
            k <= tx.vout.len(),
            vouts == tx.vout.deep_view(),
            to.len() == k,
            forall|j: int| 0 <= j < k ==> (#[trigger] to[j])@ == output_entry(vouts[j]),
        decreases tx.vout.len() - k,
    {
        assert(vouts[k as int] == tx.vout[k as int]@);
        to.push(entry_of(&tx.vout[k]));
        k += 1;
    }
    assert(to.deep_view() =~= output_entries(vouts));
    let fee = match (sum_entries(&from), sum_entries(&to)) {
        (Some(from_sum), Some(to_sum)) => from_sum.checked_sub(to_sum),
        _ => None,
    };
    let fee = match fee {
        Some(fee) => fee,
        None => {
            return Err(Error::with_context(ErrorKind::Internal, ErrorContext::Overflow));
        },
    };
    let senders = senders_of(&from);
    Ok(
        BlockchainTransaction {
            hash: tx.txid,
            from: senders,
            to,
            block_number,
            currency: Currency::Btc,
            fee,
            confirmations: confirmations_of(current_block, block_number),
            erc20_operation_kind: None,
        },
    )
}

fn senders_of(entries: &Vec<BlockchainTransactionEntry>) -> (r: Vec<String>)
    ensures
        r.deep_view() == sender_addresses(entries.deep_view()),
{
    proof {
        reveal_strlit("0");
    }
    let zero = String::from_str("0");
    assert(zero@ =~= no_address());
    let ghost all = entries.deep_view();
    let mut out: Vec<String> = Vec::new();
    let mut i: usize = 0;
    assert(all.take(0) =~= Seq::<EntryView>::empty());
    while i < entries.len()
        invariant
            i <= entries.len(),
            all == entries.deep_view(),
            zero@ == no_address(),
            out.deep_view() == sender_addresses(all.take(i as int)),
        decreases entries.len() - i,
    {
        proof {
            assert(all.take(i + 1).drop_last() =~= all.take(i as int));
            assert(all.take(i + 1).last() == entries[i as int]@);
        }
        let ghost before = out.deep_view();
        if entries[i].address != zero {
            out.push(entries[i].address.clone());
            assert(out.deep_view() =~= before.push(entries[i as int].address@));
        }
        i += 1;
    }
    assert(all.take(i as int) =~= all);
    out
}

/// Whenever a transaction is normalised, its fee and its outputs together
/// are exactly what its resolved inputs bring; those that pay from no
/// address count too, though they are no senders.
pub proof fn law_fee_balances(
    tx: RawTransactionView,
    in_txs: Seq<InputTransactionView>,
    block_number: u64,
    current_block: u64,
)
    ensures
        spec_rpc_tx_to_tx(tx, in_txs, block_number, current_block) matches Ok(t) ==> t.fee
            + sum_values(t.to)
            == sum_values(resolved_inputs(in_txs, tx.vin)) && t.to == output_entries(tx.vout)
            && t.from == sender_addresses(resolved_inputs(in_txs, tx.vin)),
{
}

} // verus!
