use super::amount::Amount;
use vstd::prelude::*;

verus! {

/// An unspent output of a Bitcoin transaction.
#[derive(Debug, PartialEq, Eq, Clone)]
pub struct Utxo {
    pub tx_hash: String,
    pub index: u32,
    pub value: Amount,
}

/// What a [`Utxo`] holds.
pub struct UtxoView {
    pub tx_hash: Seq<char>,
    pub index: nat,
    pub value: nat,
}

impl View for Utxo {
    type V = UtxoView;

    open spec fn view(&self) -> UtxoView {
        UtxoView { tx_hash: self.tx_hash@, index: self.index as nat, value: self.value@ }
    }
}

impl DeepView for Utxo {
    type V = UtxoView;

    open spec fn deep_view(&self) -> UtxoView {
        self@
    }
}

} // verus!
