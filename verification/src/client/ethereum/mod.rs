//! The Ethereum client, and the hexadecimal forms that its requests use.
pub mod normalize;
pub mod requests;
pub mod responses;
pub mod walk;

pub use self::requests::EthereumClientImpl;

use super::error::{Error, ErrorKind};
use crate::models::address::EthereumAddress;
use crate::text::{
    chars_of, digit_char, parse_unsigned, spec_digit, spec_digit_char, spec_parse_unsigned,
    string_of,
};
use vstd::prelude::*;

verus! {

/// The two lower-case hexadecimal digits of every byte, in order.
pub open spec fn spec_bytes_to_hex(bytes: Seq<u8>) -> Seq<char> {
    Seq::new(
        2 * bytes.len(),
        |i: int|
            if i % 2 == 0 {
                spec_digit_char((bytes[i / 2] / 16) as nat)
            } else {
                spec_digit_char((bytes[i / 2] % 16) as nat)
            },
    )
}

/// The value of the `i`-th pair of characters of `hex`, read as the standard
/// library reads a byte in radix 16.
pub open spec fn pair_value(hex: Seq<char>, i: int) -> Option<nat> {
    spec_parse_unsigned(hex.subrange(2 * i, 2 * i + 2), true, 255)
}

/// The bytes that a text writes, two characters for each byte; `None` where
/// the text has an odd number of characters or a pair writes no byte.
pub open spec fn spec_hex_to_bytes(hex: Seq<char>) -> Option<Seq<u8>> {
    if hex.len() % 2 == 0 && forall|i: int|
        0 <= i < hex.len() / 2 ==> (#[trigger] pair_value(hex, i)).is_some() {
        Some(Seq::new(hex.len() / 2, |i: int| pair_value(hex, i).unwrap() as u8))
    } else {
        None
    }
}

/// `data` after as many zero bytes as fill it to 32 bytes.
pub open spec fn spec_to_padded_32_bytes(data: Seq<u8>) -> Seq<u8> {
    Seq::new((32 - data.len()) as nat, |i: int| 0u8) + data
}

/// Writes bytes in lower-case hexadecimal, two digits for each byte.
pub fn bytes_to_hex(bytes: &[u8]) -> (r: String)
    ensures
        r@ == spec_bytes_to_hex(bytes@),
{
    let mut res: Vec<char> = Vec::new();
    let mut i: usize = 0;
    while i < bytes.len()
        invariant
            i <= bytes.len(),
            res@.len() == 2 * i,
            forall|k: int| 0 <= k < 2 * i ==> #[trigger] res@[k] == spec_bytes_to_hex(bytes@)[k],
        decreases bytes.len() - i,
    {
        let byte = bytes[i];
        res.push(digit_char(byte / 16));
        res.push(digit_char(byte % 16));
        i += 1;
    }
    assert(res@ =~= spec_bytes_to_hex(bytes@));
    string_of(&res)
}

/// Reads bytes written in hexadecimal, two characters for each byte.
///
/// A text with an odd number of characters, or with a pair that writes no
/// byte, is a bad request.
pub fn hex_to_bytes(hex: String) -> (r: Result<Vec<u8>, Error>)
    ensures
        match r {
            Ok(bytes) => spec_hex_to_bytes(hex@) == Some(bytes@),
            Err(e) => spec_hex_to_bytes(hex@).is_none() && e.is_kind(ErrorKind::BadRequest),
        },
{
    let chars = chars_of(hex.as_str());
    let mut bytes: Vec<u8> = Vec::new();
    let mut i: usize = 0;
    while i < chars.len() / 2
        invariant
            chars@ == hex@,
            i <= chars.len() / 2,
            bytes.len() == i,
            forall|k: int| 0 <= k < i ==> #[trigger] pair_value(hex@, k) == Some(bytes@[k] as nat),
        decreases chars.len() / 2 - i,
    {
        let mut pair: Vec<char> = Vec::new();
        pair.push(chars[2 * i]);
        pair.push(chars[2 * i + 1]);
        assert(pair@ =~= hex@.subrange(2 * i, 2 * i + 2));
        assert(pair@.skip(0) =~= pair@);
        match parse_unsigned(&pair, 0, true, 255) {
            Some(value) => {
                bytes.push(value as u8);
            },
            None => {
                assert(pair_value(hex@, i as int).is_none());
                return Err(Error::of_kind(ErrorKind::BadRequest));
            },
        }
        i += 1;
    }
    if chars.len() % 2 != 0 {
        return Err(Error::of_kind(ErrorKind::BadRequest));
    }
    assert(bytes@ =~= spec_hex_to_bytes(hex@).unwrap());
    Ok(bytes)
}

/// Fills `data` with leading zero bytes to 32 bytes.
pub fn to_padded_32_bytes(data: &[u8]) -> (r: Vec<u8>)
    requires
        data@.len() <= 32,
    ensures
        r@ == spec_to_padded_32_bytes(data@),
        r@.len() == 32,
        r@.skip(32 - data@.len()) == data@,
{
    let zeros_len = 32 - data.len();
    let mut res: Vec<u8> = Vec::new();
    let mut i: usize = 0;
    while i < zeros_len
        invariant
            i <= zeros_len,
            res@ == Seq::new(i as nat, |k: int| 0u8),
        decreases zeros_len - i,
    {
        res.push(0);
        i += 1;
        assert(res@ =~= Seq::new(i as nat, |k: int| 0u8));
    }
    let mut j: usize = 0;
    while j < data.len()
        invariant
            j <= data.len(),
            zeros_len == 32 - data@.len(),
            res@ == Seq::new(zeros_len as nat, |k: int| 0u8) + data@.take(j as int),
        decreases data.len() - j,
    {
        res.push(data[j]);
        j += 1;
        assert(res@ =~= Seq::new(zeros_len as nat, |k: int| 0u8) + data@.take(j as int));
    }
    assert(data@.take(j as int) =~= data@);
    assert(res@.skip(32 - data@.len()) =~= data@);
    res
}

/// An address as a word of a contract call: its bytes, filled with leading
/// zeros to 32 bytes, in hexadecimal. `None` where the address is no
/// hexadecimal text or writes more than 32 bytes.
pub open spec fn spec_serialize_address(address: Seq<char>) -> Option<Seq<char>> {
    match spec_hex_to_bytes(address) {
        Some(bytes) => if bytes.len() <= 32 {
            Some(spec_bytes_to_hex(spec_to_padded_32_bytes(bytes)))
        } else {
            None
        },
        None => None,
    }
}

/// Writes an address as a word of a contract call: 64 hexadecimal digits.
///
/// An address that is no hexadecimal text, or that writes more than 32
/// bytes, is a bad request.
pub fn serialize_address(address: EthereumAddress) -> (r: Result<String, Error>)
    ensures
        match r {
            Ok(word) => spec_serialize_address(address@) == Some(word@) && word@.len() == 64,
            Err(e) => spec_serialize_address(address@).is_none() && e.is_kind(
                ErrorKind::BadRequest,
            ),
        },
{
    let bytes = hex_to_bytes(address.into_inner())?;
    if bytes.len() > 32 {
        return Err(Error::of_kind(ErrorKind::BadRequest));
    }
    let padded = to_padded_32_bytes(bytes.as_slice());
    Ok(bytes_to_hex(padded.as_slice()))
}

/// Reading back what `bytes_to_hex` wrote gives the bytes.
pub proof fn law_hex_round_trip(bytes: Seq<u8>)
    ensures
        spec_hex_to_bytes(spec_bytes_to_hex(bytes)) == Some(bytes),
{
    let hex = spec_bytes_to_hex(bytes);
    assert forall|i: int| 0 <= i < hex.len() / 2 implies #[trigger] pair_value(hex, i) == Some(
        bytes[i] as nat,
    ) by {
        let hi = (bytes[i] / 16) as nat;
        let lo = (bytes[i] % 16) as nat;
        let pair = hex.subrange(2 * i, 2 * i + 2);
        assert(pair[0] == hex[2 * i]);
        assert(pair[1] == hex[2 * i + 1]);
        assert(pair[0] == spec_digit_char(hi));
        assert(pair[1] == spec_digit_char(lo));
        assert(spec_digit(spec_digit_char(hi), true) == Some(hi));
        assert(spec_digit(spec_digit_char(lo), true) == Some(lo));
        assert(pair[0] != '+');
        assert(pair.drop_last().drop_last() =~= Seq::<char>::empty());
        assert(pair.drop_last().last() == pair[0]);
        assert(crate::text::digits_value(pair.drop_last().drop_last(), true) == 0);
        assert(crate::text::digits_value(pair.drop_last(), true) == hi);
        assert(crate::text::digits_value(pair, true) == hi * 16 + lo);
        assert forall|k: int| 0 <= k < pair.len() implies (#[trigger] spec_digit(
            pair[k],
            true,
        )).is_some() by {
            if k == 0 {
            } else {
                assert(k == 1);
            }
        }
    }
    assert(spec_hex_to_bytes(hex).unwrap() =~= bytes);
}

} // verus!
