use vstd::prelude::*;

verus! {

/// The currencies that the gateway tracks.
#[derive(Debug, PartialEq, Eq, Structural, Clone, Copy, Hash)]
pub enum Currency {
    Eth,
    Stq,
    Btc,
}

impl Currency {
    /// The lower-case name of the currency, as it is written on the wire.
    pub open spec fn name(self) -> Seq<char> {
        match self {
            Currency::Eth => "eth"@,
            Currency::Stq => "stq"@,
            Currency::Btc => "btc"@,
        }
    }

    /// The lower-case name of the currency.
    pub fn to_string(&self) -> (r: String)
        ensures
            r@ == self.name(),
    {
        match self {
            Currency::Eth => String::from_str("eth"),
            Currency::Stq => String::from_str("stq"),
            Currency::Btc => String::from_str("btc"),
        }
    }
}

} // verus!
