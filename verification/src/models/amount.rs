use crate::text::{
    all_digits, digits_value, lemma_number_text_value, number_text, number_to_text, spec_digit,
    string_of,
};
use vstd::prelude::*;

verus! {

/// The characters that JSON lets stand around a value.
pub open spec fn is_json_space(c: char) -> bool {
    c == ' ' || c == '\n' || c == '\t' || c == '\r'
}

/// Whether `s[from..to]` holds nothing but JSON space.
pub open spec fn all_json_space(s: Seq<char>, from: int, to: int) -> bool {
    forall|i: int| from <= i < to ==> is_json_space(#[trigger] s[i])
}

/// Whether a text is the JSON number `v`: the decimal digits of `v`,
/// without sign, leading zeros, fraction or exponent, with nothing but JSON
/// space before and after.
pub open spec fn reads_as(s: Seq<char>, v: nat) -> bool {
    exists|a: int, b: int|
        0 <= a <= b <= s.len() && all_json_space(s, 0, a) && all_json_space(s, b, s.len() as int)
            && #[trigger] s.subrange(a, b) == number_text(v, false)
}

/// `serde_json::from_str::<u128>` reads a text that is one JSON number of at
/// most 2^128 - 1, and fails on every other text.
#[verifier::external_body]
fn json_to_u128(s: &str) -> (r: Option<u128>)
    ensures
        match r {
            Some(v) => reads_as(s@, v as nat),
            None => forall|v: u128| !reads_as(s@, v as nat),
        },
{
    serde_json::from_str::<u128>(s).ok()
}

/// `serde_json::to_string` writes a `u128` as its decimal digits. It fails
/// only where the value refuses to be written or the output cannot be
/// extended; an integer written into a string does neither.
#[verifier::external_body]
fn u128_to_json(v: u128) -> (r: Option<String>)
    ensures
        r.is_some(),
        r.unwrap()@ == number_text(v as nat, false),
{
    serde_json::to_string(&v).ok()
}

/// The number that some bytes write, the most significant byte first.
pub open spec fn be_value(bytes: Seq<u8>) -> nat
    decreases bytes.len(),
{
    if bytes.len() == 0 {
        0
    } else {
        be_value(bytes.drop_last()) * 256 + bytes.last() as nat
    }
}

/// 256 raised to the power `n`.
pub open spec fn pow256(n: nat) -> nat
    decreases n,
{
    if n == 0 {
        1
    } else {
        pow256((n - 1) as nat) * 256
    }
}

/// A monetary amount in the smallest unit of a currency (satoshi, wei).
///
/// It holds any value up to 2^128 - 1, which is 38 significant digits: the
/// total supply of a coin must stay below that. All arithmetic on amounts is
/// checked; nothing wraps.
#[derive(Clone, Copy, Debug, PartialEq, Eq, Structural, PartialOrd, Ord, Hash)]
pub struct Amount(pub u128);

impl View for Amount {
    type V = nat;

    open spec fn view(&self) -> nat {
        self.0 as nat
    }
}

impl DeepView for Amount {
    type V = nat;

    open spec fn deep_view(&self) -> nat {
        self.0 as nat
    }
}

impl Amount {
    /// The largest amount, 2^128 - 1.
    pub fn max_value() -> (r: Self)
        ensures
            r@ == u128::MAX,
            r == Amount(u128::MAX),
    {
        Amount(u128::MAX)
    }

    /// The sum of two amounts, or `None` when it does not fit.
    pub fn checked_add(&self, other: Amount) -> (r: Option<Self>)
        ensures
            r == if self@ + other@ <= u128::MAX {
                Some(Amount((self@ + other@) as u128))
            } else {
                None
            },
    {
        match self.0.checked_add(other.0) {
            Some(v) => Some(Amount(v)),
            None => None,
        }
    }

    /// The difference of two amounts, or `None` when `other` is the larger.
    pub fn checked_sub(&self, other: Amount) -> (r: Option<Self>)
        ensures
            r == if self@ >= other@ {
                Some(Amount((self@ - other@) as u128))
            } else {
                None
            },
    {
        match self.0.checked_sub(other.0) {
            Some(v) => Some(Amount(v)),
            None => None,
        }
    }

    /// The product of two amounts, or `None` when it does not fit.
    pub fn checked_mul(&self, other: Amount) -> (r: Option<Self>)
        ensures
            r == if self@ * other@ <= u128::MAX {
                Some(Amount((self@ * other@) as u128))
            } else {
                None
            },
    {
        match self.0.checked_mul(other.0) {
            Some(v) => Some(Amount(v)),
            None => None,
        }
    }

    /// The amount as an integer.
    pub fn inner(&self) -> (r: u128)
        ensures
            r == self@,
    {
        self.0
    }

    /// The amount as a 64-bit integer, if it fits.
    pub fn u64(&self) -> (r: Option<u64>)
        ensures
            r == if self@ <= u64::MAX {
                Some(self@ as u64)
            } else {
                None
            },
    {
        if self.0 <= u64::MAX as u128 {
            Some(self.0 as u64)
        } else {
            None
        }
    }

    /// The amount as 16 bytes, the most significant byte first.
    pub fn bytes(&self) -> (r: Vec<u8>)
        ensures
            r@.len() == 16,
            be_value(r@) == self@,
    {
        let mut out: Vec<u8> = Vec::new();
        let mut rest: u128 = self.0;
        let mut divisor: u128 = 0x1_00_0000_0000_0000_0000_0000_0000_0000;
        let mut i: usize = 0;
        proof {
            reveal_with_fuel(pow256, 17);
            assert(pow256(15) == 0x1_00_0000_0000_0000_0000_0000_0000_0000);
        }
        while i < 16
            invariant
                i <= 16,
                out@.len() == i,
                i < 16 ==> divisor == pow256((15 - i) as nat),
                i < 16 ==> rest < divisor * 256,
                i == 16 ==> rest == 0,
                i < 16 ==> be_value(out@) * (divisor * 256) + rest == self@,
                i == 16 ==> be_value(out@) == self@,
            decreases 16 - i,
        {
            let byte: u128 = rest / divisor;
            let next: u128 = rest % divisor;
            let ghost before = out@;
            let ghost value = be_value(before) as int;
            proof {
                let d = divisor as int;
                assert(byte < 256 && rest == byte * d + next && next < d) by (nonlinear_arith)
                    requires
                        d > 0,
                        0 <= rest < d * 256,
                        byte == rest as int / d,
                        next == rest as int % d,
                ;
                assert((value * 256 + byte) * d + next == value * (d * 256) + rest)
                    by (nonlinear_arith)
                    requires
                        rest == byte * d + next,
                ;
            }
            out.push(byte as u8);
            proof {
                assert(out@.drop_last() =~= before);
                assert(be_value(out@) == value * 256 + byte);
                if i < 15 {
                    assert(pow256((15 - i) as nat) == pow256((14 - i) as nat) * 256);
                } else {
                    assert(pow256(0) == 1);
                    assert(divisor == 1);
                    let d = divisor as int;
                    assert(value * 256 + byte == value * (d * 256) + rest && next == 0)
                        by (nonlinear_arith)
                        requires
                            d == 1,
                            rest == byte * d + next,
                            0 <= next < d,
                    ;
                }
            }
            rest = next;
            if i < 15 {
                divisor = divisor / 256;
            }
            i += 1;
        }
        out
    }

    pub fn new(val: u128) -> (r: Self)
        ensures
            r@ == val,
            r == Amount(val),
    {
        Amount(val)
    }

    /// The amount in lower-case hexadecimal, without prefix or leading zeros.
    pub fn lower_hex(&self) -> (r: String)
        ensures
            r@ == number_text(self@, true),
    {
        let digits = number_to_text(self.0, true);
        string_of(&digits)
    }

    /// The amount as a JSON number.
    pub fn to_json(&self) -> (r: String)
        ensures
            r@ == number_text(self@, false),
    {
        match u128_to_json(self.0) {
            Some(s) => s,
            None => String::new(),
        }
    }

    /// Reads an amount from a JSON number. A text that is no whole number
    /// from 0 to 2^128 - 1 (a negative number, a fraction, a number out of
    /// range, anything else) gives `None`.
    pub fn from_json(s: &str) -> (r: Option<Self>)
        ensures
            match r {
                Some(a) => reads_as(s@, a@),
                None => forall|v: u128| !reads_as(s@, v as nat),
            },
    {
        match json_to_u128(s) {
            Some(v) => Some(Amount(v)),
            None => None,
        }
    }
}

/// A text is at most one number.
pub proof fn law_json_number_is_unique(s: Seq<char>, v: nat, w: nat)
    requires
        reads_as(s, v),
        reads_as(s, w),
    ensures
        v == w,
{
    let (a, b) = choose|a: int, b: int|
        0 <= a <= b <= s.len() && all_json_space(s, 0, a) && all_json_space(s, b, s.len() as int)
            && #[trigger] s.subrange(a, b) == number_text(v, false);
    let (c, d) = choose|c: int, d: int|
        0 <= c <= d <= s.len() && all_json_space(s, 0, c) && all_json_space(s, d, s.len() as int)
            && #[trigger] s.subrange(c, d) == number_text(w, false);
    let tv = number_text(v, false);
    let tw = number_text(w, false);
    lemma_number_text_value(v, false);
    lemma_number_text_value(w, false);
    assert(tv.len() == b - a);
    assert(tw.len() == d - c);
    // the digits of a number hold no space
    assert(s[a] == tv[0] && spec_digit(tv[0], false).is_some());
    assert(s[c] == tw[0] && spec_digit(tw[0], false).is_some());
    assert(s[b - 1] == tv[b - a - 1] && spec_digit(tv[b - a - 1], false).is_some());
    assert(s[d - 1] == tw[d - c - 1] && spec_digit(tw[d - c - 1], false).is_some());
    assert(a == c);
    assert(b == d);
}

/// What `to_json` writes, `from_json` reads back as the same amount and as
/// no other.
pub proof fn law_json_round_trip(v: u128)
    ensures
        reads_as(number_text(v as nat, false), v as nat),
        forall|w: nat| reads_as(number_text(v as nat, false), w) ==> w == v,
{
    let s = number_text(v as nat, false);
    lemma_json_text_reads(v as nat);
    assert forall|w: nat| reads_as(s, w) implies w == v by {
        law_json_number_is_unique(s, v as nat, w);
    }
}

/// The digits of a number read as that number.
pub proof fn lemma_json_text_reads(v: nat)
    ensures
        reads_as(number_text(v, false), v),
{
    let s = number_text(v, false);
    assert(s.subrange(0, s.len() as int) =~= s);
}

/// A text that holds anything but digits and JSON space, such as a sign or
/// a decimal point, is no number.
pub proof fn law_json_rejects_other_characters(s: Seq<char>, i: int, v: nat)
    requires
        0 <= i < s.len(),
        !is_json_space(s[i]),
        spec_digit(s[i], false).is_none(),
    ensures
        !reads_as(s, v),
{
    if reads_as(s, v) {
        let (a, b) = choose|a: int, b: int|
            0 <= a <= b <= s.len() && all_json_space(s, 0, a) && all_json_space(
                s,
                b,
                s.len() as int,
            ) && #[trigger] s.subrange(a, b) == number_text(v, false);
        lemma_number_text_value(v, false);
        if a <= i < b {
            assert(s[i] == number_text(v, false)[i - a]);
            assert(spec_digit(number_text(v, false)[i - a], false).is_some());
        }
    }
}

/// The digits of a number beyond 2^128 - 1 are no amount.
pub proof fn law_json_rejects_out_of_range(n: nat, v: u128)
    requires
        n > u128::MAX,
    ensures
        !reads_as(number_text(n, false), v as nat),
{
    if reads_as(number_text(n, false), v as nat) {
        lemma_json_text_reads(n);
        law_json_number_is_unique(number_text(n, false), n, v as nat);
    }
}

} // verus!
