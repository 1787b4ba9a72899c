//! What a Bitcoin node, and the service that lists unspent outputs, answer.
use crate::models::amount::Amount;
use crate::models::transaction::TxHash;
use crate::models::utxo::Utxo;
use crate::text::{
    all_digits, chars_of, digits_value, find_char, lemma_find_absent, lemma_value_concat,
    parse_unsigned, position_of, radix_pow, spec_digit, spec_parse_unsigned,
};
use vstd::prelude::*;
use vstd::std_specs::convert::FromSpecImpl;

verus! {

#[derive(Debug, Clone)]
pub struct UtxosResponse {
    pub unspent_outputs: Vec<UtxoResponse>,
}

#[derive(Debug, Clone)]
pub struct UtxoResponse {
    pub tx_hash_big_endian: String,
    pub tx_output_n: u32,
    pub value: Amount,
}

#[derive(Debug, Clone)]
pub struct RpcSendTransactionsResponse {
    pub result: TxHash,
}

#[derive(Debug, Clone)]
pub struct GetTransactionResponse {
    pub hash: String,
    pub inputs: Vec<TransactionInputResponse>,
    pub out: Vec<TransactionOutputResponse>,
    pub block_height: u64,
}

#[derive(Debug, Clone)]
pub struct TransactionInputResponse {
    pub prev_out: TransactionOutputResponse,
}

#[derive(Debug, Clone)]
pub struct TransactionOutputResponse {
    pub addr: String,
    pub value: Amount,
}

#[derive(Debug, Clone)]
pub struct RpcBlockResponse {
    pub result: Block,
}

/// A block as the node describes it: its own hash, the hash of the block
/// before it, and the ids of its transactions, the coinbase first.
#[derive(Debug, Clone, PartialEq, Eq)]
pub struct Block {
    pub hash: String,
    pub previousblockhash: String,
    pub tx: Vec<String>,
    pub height: u64,
    pub confirmations: usize,
}

/// What a [`Block`] holds.
pub struct BlockView {
    pub hash: Seq<char>,
    pub previousblockhash: Seq<char>,
    pub tx: Seq<Seq<char>>,
    pub height: u64,
    pub confirmations: usize,
}

impl View for Block {
    type V = BlockView;

    open spec fn view(&self) -> BlockView {
        BlockView {
            hash: self.hash@,
            previousblockhash: self.previousblockhash@,
            tx: self.tx.deep_view(),
            height: self.height,
            confirmations: self.confirmations,
        }
    }
}

impl DeepView for Block {
    type V = BlockView;

    open spec fn deep_view(&self) -> BlockView {
        self@
    }
}

#[derive(Debug, Clone)]
pub struct RpcRawTransactionResponse {
    pub result: RpcRawTransaction,
}

/// The answer for a transaction that an input refers to. Such a transaction
/// may be a coinbase, whose own inputs name no earlier output; only its
/// outputs are read.
#[derive(Debug, Clone)]
pub struct RpcRawTransactionMaybeCoinbaseVinsResponse {
    pub result: RpcRawTransactionWithMaybeCoinbaseVins,
}

#[derive(Debug, Clone)]
pub struct RpcBalanceResponse {
    pub result: Amount,
}

#[derive(Debug, Clone)]
pub struct RpcBestBlockResponse {
    pub result: String,
}

#[derive(Debug, Clone)]
pub struct RpcRawTransaction {
    pub txid: String,
    pub vin: Vec<Vin>,
    pub vout: Vec<Vout>,
    pub confirmations: usize,
}

/// What a [`RpcRawTransaction`] holds.
pub struct RawTransactionView {
    pub txid: Seq<char>,
    pub vin: Seq<VinView>,
    pub vout: Seq<VoutView>,
    pub confirmations: usize,
}

impl View for RpcRawTransaction {
    type V = RawTransactionView;

    open spec fn view(&self) -> RawTransactionView {
        RawTransactionView {
            txid: self.txid@,
            vin: self.vin.deep_view(),
            vout: self.vout.deep_view(),
            confirmations: self.confirmations,
        }
    }
}

#[derive(Debug, Clone)]
pub struct RpcRawTransactionWithMaybeCoinbaseVins {
    pub txid: String,
    pub vin: Vec<MaybeCoinbaseVin>,
    pub vout: Vec<Vout>,
    pub confirmations: usize,
}

/// What the normalisation reads of a transaction that an input refers to:
/// its id and its outputs.
pub struct InputTransactionView {
    pub txid: Seq<char>,
    pub vout: Seq<VoutView>,
}

impl View for RpcRawTransactionWithMaybeCoinbaseVins {
    type V = InputTransactionView;

    open spec fn view(&self) -> InputTransactionView {
        InputTransactionView { txid: self.txid@, vout: self.vout.deep_view() }
    }
}

impl DeepView for RpcRawTransactionWithMaybeCoinbaseVins {
    type V = InputTransactionView;

    open spec fn deep_view(&self) -> InputTransactionView {
        self@
    }
}

/// An input of a transaction: the output that it spends.
#[derive(Debug, Clone)]
pub struct Vin {
    /// The transaction that holds the spent output.
    pub txid: String,
    /// The index of the spent output in that transaction.
    pub vout: usize,
}

/// What a [`Vin`] holds.
pub struct VinView {
    pub txid: Seq<char>,
    pub vout: nat,
}

impl View for Vin {
    type V = VinView;

    open spec fn view(&self) -> VinView {
        VinView { txid: self.txid@, vout: self.vout as nat }
    }
}

impl DeepView for Vin {
    type V = VinView;

    open spec fn deep_view(&self) -> VinView {
        self@
    }
}

#[derive(Debug, Clone)]
pub struct MaybeCoinbaseVin {
    pub txid: Option<String>,
    pub vout: Option<usize>,
}

/// An output of a transaction. `value` is already in satoshis.
#[derive(Debug, Clone)]
pub struct Vout {
    pub script_pub_key: ScriptPubKey,
    pub value: Amount,
}

/// What a [`Vout`] holds.
pub struct VoutView {
    pub addresses: Seq<Seq<char>>,
    pub typ: Seq<char>,
    pub value: nat,
}

impl View for Vout {
    type V = VoutView;

    open spec fn view(&self) -> VoutView {
        VoutView {
            addresses: self.script_pub_key.addresses.deep_view(),
            typ: self.script_pub_key.typ@,
            value: self.value@,
        }
    }
}

impl DeepView for Vout {
    type V = VoutView;

    open spec fn deep_view(&self) -> VoutView {
        self@
    }
}

/// The script of an output. `addresses` is empty for an output that pays
/// to no address.
#[derive(Debug, Clone)]
pub struct ScriptPubKey {
    pub addresses: Vec<String>,
    pub typ: String,
}

impl From<UtxoResponse> for Utxo {
    fn from(u: UtxoResponse) -> (r: Utxo) {
        Utxo { tx_hash: u.tx_hash_big_endian, index: u.tx_output_n, value: u.value }
    }
}

impl FromSpecImpl<UtxoResponse> for Utxo {
    open spec fn obeys_from_spec() -> bool {
        true
    }

    open spec fn from_spec(u: UtxoResponse) -> Utxo {
        Utxo { tx_hash: u.tx_hash_big_endian, index: u.tx_output_n, value: u.value }
    }
}

/// `n` zeros.
pub open spec fn zeros(n: nat) -> Seq<char> {
    Seq::new(n, |i: int| '0')
}

/// The part of a decimal text before its first dot: all of it where it
/// has no dot.
pub open spec fn whole_part(s: Seq<char>) -> Seq<char> {
    s.subrange(0, find_char(s, '.', 0))
}

/// The part of a decimal text between its first dot and its second, or
/// its end: nothing where it has no dot.
pub open spec fn fraction_part(s: Seq<char>) -> Seq<char> {
    let dot = find_char(s, '.', 0);
    if dot >= s.len() {
        Seq::empty()
    } else {
        s.subrange(dot + 1, find_char(s, '.', dot + 1))
    }
}

/// The amount in satoshis that a decimal number of bitcoins stands for.
///
/// The text is cut at its dots; what follows a second dot is not read. The
/// fraction has at most 8 characters, and is filled with zeros to 8; a text
/// without a dot has the empty fraction. The whole part, followed by the
/// filled fraction, is then read as one unsigned decimal number.
pub open spec fn spec_decimal_string_to_satoshis(s: Seq<char>) -> Option<nat> {
    let whole = whole_part(s);
    let fraction = fraction_part(s);
    if fraction.len() > 8 {
        None
    } else {
        spec_parse_unsigned(
            whole + fraction + zeros((8 - fraction.len()) as nat),
            false,
            u128::MAX as nat,
        )
    }
}

/// Reads a decimal number of bitcoins, as the node writes it, as an amount
/// in satoshis.
pub fn decimal_string_to_satoshis(s: &str) -> (r: Option<Amount>)
    ensures
        r.is_some() == spec_decimal_string_to_satoshis(s@).is_some(),
        r matches Some(a) ==> spec_decimal_string_to_satoshis(s@) == Some(a@),
{
    let v = chars_of(s);
    let dot = position_of(&v, '.', 0);
    let (start, end) = if dot < v.len() {
        (dot + 1, position_of(&v, '.', dot + 1))
    } else {
        (dot, dot)
    };
    let ghost whole = whole_part(v@);
    let ghost fraction = fraction_part(v@);
    assert(fraction =~= v@.subrange(start as int, end as int));
    if end - start > 8 {
        return None;
    }
    let mut text: Vec<char> = Vec::new();
    let mut i: usize = 0;
    while i < dot
        invariant
            i <= dot <= v.len(),
            text@ == v@.subrange(0, i as int),
        decreases dot - i,
    {
        text.push(v[i]);
        i += 1;
        assert(text@ =~= v@.subrange(0, i as int));
    }
    i = start;
    while i < end
        invariant
            start <= i <= end <= v.len(),
            text@ == whole + v@.subrange(start as int, i as int),
        decreases end - i,
    {
        text.push(v[i]);
        i += 1;
        assert(text@ =~= whole + v@.subrange(start as int, i as int));
    }
    let mut filled: usize = end - start;
    assert(text@ =~= whole + fraction + zeros(0));
    while filled < 8
        invariant
            end - start <= filled <= 8,
            fraction.len() == end - start,
            text@ == whole + fraction + zeros((filled - fraction.len()) as nat),
        decreases 8 - filled,
    {
        text.push('0');
        filled += 1;
        assert(text@ =~= whole + fraction + zeros((filled - fraction.len()) as nat));
    }
    assert(text@.skip(0) =~= text@);
    match parse_unsigned(&text, 0, false, u128::MAX) {
        Some(n) => Some(Amount::new(n)),
        None => None,
    }
}

/// The amount of a whole part and a fraction of digits: the whole part
/// times 10^8 plus the fraction shifted to 8 digits, as long as the
/// fraction has at most 8 digits and the amount fits.
pub open spec fn decimal_amount(whole: Seq<char>, fraction: Seq<char>) -> Option<nat> {
    let value = digits_value(whole, false) * radix_pow(false, 8) + digits_value(fraction, false)
        * radix_pow(false, (8 - fraction.len()) as nat);
    if fraction.len() <= 8 && value <= u128::MAX {
        Some(value)
    } else {
        None
    }
}

/// With at most 8 digits after the dot, the amount is the whole part times
/// 10^8 plus the fraction shifted to 8 digits, as long as that fits an
/// amount. With more than 8 digits after the dot there is no amount.
pub proof fn law_decimal_value(whole: Seq<char>, fraction: Seq<char>)
    requires
        all_digits(whole, false),
        all_digits(fraction, false),
    ensures
        spec_decimal_string_to_satoshis(whole + seq!['.'] + fraction) == decimal_amount(
            whole,
            fraction,
        ),
{
    let s = whole + seq!['.'] + fraction;
    let dot = whole.len() as int;
    assert forall|i: int| 0 <= i < dot implies s[i] != '.' by {
        assert(s[i] == whole[i]);
        assert(spec_digit(whole[i], false).is_some());
    }
    assert forall|i: int| dot + 1 <= i < s.len() implies s[i] != '.' by {
        assert(s[i] == fraction[i - dot - 1]);
        assert(spec_digit(fraction[i - dot - 1], false).is_some());
    }
    lemma_find_absent(s, '.', 0, dot);
    lemma_find_absent(s, '.', dot + 1, s.len() as int);
    assert(find_char(s, '.', dot) == dot);
    assert(whole_part(s) =~= whole);
    assert(fraction_part(s) =~= fraction);
    lemma_filled_value(whole, fraction);
}

/// A text of digits without a dot is a whole number of bitcoins: the
/// amount is the number times 10^8, as long as that fits an amount.
pub proof fn law_decimal_value_without_dot(whole: Seq<char>)
    requires
        all_digits(whole, false),
    ensures
        spec_decimal_string_to_satoshis(whole) == decimal_amount(whole, Seq::empty()),
        decimal_amount(whole, Seq::empty()) == if digits_value(whole, false) * 100_000_000
            <= u128::MAX {
            Some(digits_value(whole, false) * 100_000_000)
        } else {
            None
        },
{
    let none = Seq::<char>::empty();
    assert forall|i: int| 0 <= i < whole.len() implies whole[i] != '.' by {
        assert(spec_digit(whole[i], false).is_some());
    }
    lemma_find_absent(whole, '.', 0, whole.len() as int);
    assert(whole_part(whole) =~= whole);
    assert(fraction_part(whole) =~= none);
    lemma_filled_value(whole, none);
    assert(radix_pow(false, 0) == 1);
    assert(radix_pow(false, 1) == 10);
    assert(radix_pow(false, 2) == 100);
    assert(radix_pow(false, 3) == 1_000);
    assert(radix_pow(false, 4) == 10_000);
    assert(radix_pow(false, 5) == 100_000);
    assert(radix_pow(false, 6) == 1_000_000);
    assert(radix_pow(false, 7) == 10_000_000);
    assert(radix_pow(false, 8) == 100_000_000);
    assert(digits_value(none, false) == 0);
}

/// The whole part followed by the filled fraction reads as the amount of
/// the two.
proof fn lemma_filled_value(whole: Seq<char>, fraction: Seq<char>)
    requires
        all_digits(whole, false),
        all_digits(fraction, false),
    ensures
        fraction.len() <= 8 ==> spec_parse_unsigned(
            whole + fraction + zeros((8 - fraction.len()) as nat),
            false,
            u128::MAX as nat,
        ) == decimal_amount(whole, fraction),
        fraction.len() > 8 ==> decimal_amount(whole, fraction).is_none(),
{
    if fraction.len() <= 8 {
        let pad = zeros((8 - fraction.len()) as nat);
        let text = whole + fraction + pad;
        lemma_value_concat(whole, fraction + pad, false);
        lemma_value_concat(fraction, pad, false);
        lemma_zeros_value(pad.len());
        lemma_pow_add(fraction.len(), pad.len());
        assert(text =~= whole + (fraction + pad));
        assert(all_digits(text, false)) by {
            assert forall|i: int| 0 <= i < text.len() implies (#[trigger] spec_digit(
                text[i],
                false,
            )).is_some() by {
                if i < whole.len() {
                    assert(text[i] == whole[i]);
                } else if i < whole.len() + fraction.len() {
                    assert(text[i] == fraction[i - whole.len()]);
                } else {
                    assert(text[i] == '0');
                }
            }
        }
        if text[0] == '+' {
            assert(spec_digit(text[0], false).is_some());
        }
    }
}

/// Zeros write zero.
proof fn lemma_zeros_value(n: nat)
    ensures
        digits_value(zeros(n), false) == 0,
    decreases n,
{
    if n > 0 {
        lemma_zeros_value((n - 1) as nat);
        assert(zeros(n).drop_last() =~= zeros((n - 1) as nat));
    }
}

/// Powers of the radix add their exponents.
proof fn lemma_pow_add(a: nat, b: nat)
    ensures
        radix_pow(false, a + b) == radix_pow(false, a) * radix_pow(false, b),
    decreases b,
{
    if b > 0 {
        lemma_pow_add(a, (b - 1) as nat);
        let x = radix_pow(false, a) as int;
        let y = radix_pow(false, (b - 1) as nat) as int;
        assert(radix_pow(false, a + b) == radix_pow(false, (a + b - 1) as nat) * 10);
        assert(radix_pow(false, b) == y * 10);
        assert((x * y) * 10 == x * (y * 10)) by (nonlinear_arith);
    } else {
        assert(radix_pow(false, b) == 1);
    }
}

} // verus!
