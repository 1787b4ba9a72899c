use vstd::prelude::*;

verus! {

/// A Bitcoin address in its text form (base58 or bech32), kept as given.
#[derive(Debug, PartialEq, Eq, Clone)]
pub struct BitcoinAddress(String);

impl View for BitcoinAddress {
    type V = Seq<char>;

    closed spec fn view(&self) -> Seq<char> {
        self.0@
    }
}

impl BitcoinAddress {
    /// Any text is taken as an address; nothing is checked.
    pub fn from_str(s: &str) -> (r: Result<Self, ()>)
        ensures
            r matches Ok(a) && a@ == s@,
    {
        Ok(BitcoinAddress(String::from_str(s)))
    }

    /// The address as text.
    pub fn to_string(&self) -> (r: String)
        ensures
            r@ == self@,
    {
        self.0.clone()
    }
}

/// An Ethereum address: 40 hexadecimal characters without the `0x` prefix.
/// The text is kept as given.
#[derive(Debug, PartialEq, Eq, Clone)]
pub struct EthereumAddress(String);

impl View for EthereumAddress {
    type V = Seq<char>;

    closed spec fn view(&self) -> Seq<char> {
        self.0@
    }
}

impl EthereumAddress {
    pub fn into_inner(self) -> (r: String)
        ensures
            r@ == self@,
    {
        self.0
    }

    /// Any text is taken as an address; nothing is checked.
    pub fn from_str(s: &str) -> (r: Result<Self, ()>)
        ensures
            r matches Ok(a) && a@ == s@,
    {
        Ok(EthereumAddress(String::from_str(s)))
    }

    /// The address as text.
    pub fn to_string(&self) -> (r: String)
        ensures
            r@ == self@,
    {
        self.0.clone()
    }
}

} // verus!
