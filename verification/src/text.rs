//! Text primitives shared by the clients: characters of a string, digits,
//! and numbers written in radix 10 or 16.
//!
//! All specifications speak of a string as its sequence of characters.
use vstd::prelude::*;

verus! {

/// `String::push` appends one character to the end of the string.
pub assume_specification[ String::push ](s: &mut String, c: char)
    ensures
        final(s)@ == old(s)@.push(c),
;

/// The characters of a string, in order.
pub fn chars_of(s: &str) -> (v: Vec<char>)
    ensures
        v@ == s@,
{
    let mut v: Vec<char> = Vec::new();
    for c in it: s.chars()
        invariant
            it.seq() == s@,
            v@ == it.seq().take(it.index() as int),
    {
        v.push(c);
    }
    assert(v@ =~= s@);
    v
}

/// The string made of `v[from..to]`.
pub fn string_of_range(v: &Vec<char>, from: usize, to: usize) -> (s: String)
    requires
        from <= to <= v.len(),
    ensures
        s@ == v@.subrange(from as int, to as int),
{
    let mut s = String::new();
    let mut i: usize = from;
    while i < to
        invariant
            from <= i <= to <= v.len(),
            s@ == v@.subrange(from as int, i as int),
        decreases to - i,
    {
        s.push(v[i]);
        i += 1;
        assert(v@.subrange(from as int, i as int) =~= v@.subrange(from as int, i - 1).push(
            v@[i - 1],
        ));
    }
    s
}

/// The string made of the given characters.
pub fn string_of(v: &Vec<char>) -> (s: String)
    ensures
        s@ == v@,
{
    let s = string_of_range(v, 0, v.len());
    assert(v@.subrange(0, v.len() as int) =~= v@);
    s
}

/// Whether two strings hold the same characters.
pub fn same_text(a: &str, b: &str) -> (r: bool)
    ensures
        r == (a@ == b@),
{
    let x = String::from_str(a);
    let y = String::from_str(b);
    x == y
}

/// The string `s` without its first `n` characters, or `None` when it has fewer.
pub open spec fn spec_skip_chars(s: Seq<char>, n: nat) -> Option<Seq<char>> {
    if s.len() >= n {
        Some(s.skip(n as int))
    } else {
        None
    }
}

/// The last `n` characters of `s`, or `None` when it has fewer.
pub open spec fn spec_last_chars(s: Seq<char>, n: nat) -> Option<Seq<char>> {
    if s.len() >= n {
        Some(s.skip(s.len() - n))
    } else {
        None
    }
}

/// The string `s` without its first `n` characters; nothing is left of a
/// string that has fewer.
pub open spec fn spec_without_prefix(s: Seq<char>, n: nat) -> Seq<char> {
    if s.len() >= n {
        s.skip(n as int)
    } else {
        Seq::empty()
    }
}

/// Drops the first `n` characters of `s`, or all of them where it has
/// fewer.
pub fn without_prefix(s: &str, n: usize) -> (r: String)
    ensures
        r@ == spec_without_prefix(s@, n as nat),
{
    let v = chars_of(s);
    if v.len() < n {
        String::new()
    } else {
        string_of_range(&v, n, v.len())
    }
}

/// Drops the first `n` characters of `s`.
pub fn skip_chars(s: &str, n: usize) -> (r: Option<String>)
    ensures
        r.is_some() == spec_skip_chars(s@, n as nat).is_some(),
        r matches Some(t) ==> Some(t@) == spec_skip_chars(s@, n as nat),
{
    let v = chars_of(s);
    if v.len() < n {
        None
    } else {
        Some(string_of_range(&v, n, v.len()))
    }
}

/// Keeps the last `n` characters of `s`.
pub fn last_chars(s: &str, n: usize) -> (r: Option<String>)
    ensures
        r.is_some() == spec_last_chars(s@, n as nat).is_some(),
        r matches Some(t) ==> Some(t@) == spec_last_chars(s@, n as nat),
{
    let v = chars_of(s);
    if v.len() < n {
        None
    } else {
        Some(string_of_range(&v, v.len() - n, v.len()))
    }
}

/// The value of `c` as a digit: `0`-`9` in both radixes, and `a`-`f` or
/// `A`-`F` when `hex` is set.
pub open spec fn spec_digit(c: char, hex: bool) -> Option<nat> {
    if '0' <= c && c <= '9' {
        Some((c as u32 - '0' as u32) as nat)
    } else if hex && 'a' <= c && c <= 'f' {
        Some((c as u32 - 'a' as u32 + 10) as nat)
    } else if hex && 'A' <= c && c <= 'F' {
        Some((c as u32 - 'A' as u32 + 10) as nat)
    } else {
        None
    }
}

/// 16 for hexadecimal, 10 for decimal.
pub open spec fn radix_of(hex: bool) -> nat {
    if hex {
        16
    } else {
        10
    }
}

/// Whether every character of `s` is a digit.
pub open spec fn all_digits(s: Seq<char>, hex: bool) -> bool {
    forall|i: int| 0 <= i < s.len() ==> (#[trigger] spec_digit(s[i], hex)).is_some()
}

/// The number that the digits of `s` write, most significant digit first.
/// A character that is no digit counts as zero.
pub open spec fn digits_value(s: Seq<char>, hex: bool) -> nat
    decreases s.len(),
{
    if s.len() == 0 {
        0
    } else {
        let d = match spec_digit(s.last(), hex) {
            Some(d) => d,
            None => 0,
        };
        digits_value(s.drop_last(), hex) * radix_of(hex) + d
    }
}

/// What the standard library's `from_str_radix` accepts for an unsigned
/// type with largest value `max`: an optional `+`, then one or more digits
/// whose value fits.
pub open spec fn spec_parse_unsigned(s: Seq<char>, hex: bool, max: nat) -> Option<nat> {
    let digits = if s.len() > 0 && s[0] == '+' {
        s.skip(1)
    } else {
        s
    };
    if digits.len() > 0 && all_digits(digits, hex) && digits_value(digits, hex) <= max {
        Some(digits_value(digits, hex))
    } else {
        None
    }
}

/// `10` or `16` raised to the power `n`.
pub open spec fn radix_pow(hex: bool, n: nat) -> nat
    decreases n,
{
    if n == 0 {
        1
    } else {
        radix_pow(hex, (n - 1) as nat) * radix_of(hex)
    }
}

/// The digit value of a character.
pub fn digit_of(c: char, hex: bool) -> (r: Option<u8>)
    ensures
        r.is_some() == spec_digit(c, hex).is_some(),
        r matches Some(d) ==> spec_digit(c, hex) == Some(d as nat) && d < radix_of(hex),
{
    if '0' <= c && c <= '9' {
        Some((c as u32 - '0' as u32) as u8)
    } else if hex && 'a' <= c && c <= 'f' {
        Some((c as u32 - 'a' as u32 + 10) as u8)
    } else if hex && 'A' <= c && c <= 'F' {
        Some((c as u32 - 'A' as u32 + 10) as u8)
    } else {
        None
    }
}

/// A prefix of a digit string never writes a larger number than the whole.
pub proof fn lemma_prefix_value(s: Seq<char>, k: int, hex: bool)
    requires
        0 <= k <= s.len(),
    ensures
        digits_value(s.take(k), hex) <= digits_value(s, hex),
    decreases s.len() - k,
{
    if k == s.len() {
        assert(s.take(k) =~= s);
    } else {
        lemma_prefix_value(s.drop_last(), k, hex);
        assert(s.drop_last().take(k) =~= s.take(k));
        let v = digits_value(s.drop_last(), hex);
        assert(v * radix_of(hex) >= v) by (nonlinear_arith)
            requires
                radix_of(hex) >= 1,
        ;
    }
}

/// The value of a concatenation: the left part is shifted by the length of
/// the right part.
pub proof fn lemma_value_concat(a: Seq<char>, b: Seq<char>, hex: bool)
    ensures
        digits_value(a + b, hex) == digits_value(a, hex) * radix_pow(hex, b.len()) + digits_value(
            b,
            hex,
        ),
    decreases b.len(),
{
    if b.len() == 0 {
        assert(a + b =~= a);
        assert(radix_pow(hex, b.len()) == 1);
        assert(digits_value(b, hex) == 0);
    } else {
        lemma_value_concat(a, b.drop_last(), hex);
        assert((a + b).drop_last() =~= a + b.drop_last());
        assert((a + b).last() == b.last());
        let r = radix_of(hex) as int;
        let va = digits_value(a, hex) as int;
        let p = radix_pow(hex, (b.len() - 1) as nat) as int;
        let vb = digits_value(b.drop_last(), hex) as int;
        assert(radix_pow(hex, b.len()) == p * r);
        assert(digits_value(a + b.drop_last(), hex) == va * p + vb);
        assert((va * p + vb) * r == va * (p * r) + vb * r) by (nonlinear_arith);
        let d: int = match spec_digit(b.last(), hex) {
            Some(d) => d as int,
            None => 0,
        };
        assert(digits_value(a + b, hex) == (va * p + vb) * r + d);
        assert(digits_value(b, hex) == vb * r + d);
    }
}

/// Parses `v[from..]` as the standard library parses an unsigned number of
/// at most `max`.
pub fn parse_unsigned(v: &Vec<char>, from: usize, hex: bool, max: u128) -> (r: Option<u128>)
    requires
        from <= v.len(),
    ensures
        r.is_some() == spec_parse_unsigned(v@.skip(from as int), hex, max as nat).is_some(),
        r matches Some(n) ==> spec_parse_unsigned(v@.skip(from as int), hex, max as nat) == Some(
            n as nat,
        ),
{
    let ghost s = v@.skip(from as int);
    let mut i: usize = from;
    if i < v.len() && v[i] == '+' {
        i += 1;
    }
    let start = i;
    let ghost digits = v@.skip(start as int);
    assert(digits =~= if s.len() > 0 && s[0] == '+' {
        s.skip(1)
    } else {
        s
    });
    if start == v.len() {
        return None;
    }
    let radix: u128 = if hex {
        16
    } else {
        10
    };
    let mut acc: u128 = 0;
    while i < v.len()
        invariant
            start <= i <= v.len(),
            start < v.len(),
            from <= start,
            s == v@.skip(from as int),
            digits == v@.skip(start as int),
            digits == if s.len() > 0 && s[0] == '+' {
                s.skip(1)
            } else {
                s
            },
            radix == radix_of(hex),
            acc as nat == digits_value(digits.take(i - start), hex),
            all_digits(digits.take(i - start), hex),
            acc <= max,
        decreases v.len() - i,
    {
        let ghost before = digits.take(i - start);
        let ghost after = digits.take(i - start + 1);
        assert(after.drop_last() =~= before);
        assert(after.last() == v@[i as int]);
        match digit_of(v[i], hex) {
            None => {
                assert(spec_digit(digits[i - start], hex).is_none());
                return None;
            },
            Some(d) => {
                let next = match acc.checked_mul(radix) {
                    Some(m) => m.checked_add(d as u128),
                    None => None,
                };
                proof {
                    if all_digits(digits, hex) {
                        lemma_prefix_value(digits, i - start + 1, hex);
                    }
                }
                match next {
                    Some(n) => {
                        if n > max {
                            return None;
                        }
                        acc = n;
                    },
                    None => {
                        return None;
                    },
                }
                assert forall|j: int| 0 <= j < after.len() implies (#[trigger] spec_digit(
                    after[j],
                    hex,
                )).is_some() by {
                    if j < before.len() {
                        assert(after[j] == before[j]);
                    }
                }
            },
        }
        i += 1;
    }
    assert(digits.take(i - start) =~= digits);
    Some(acc)
}

/// The digit that writes `d`, in lower case.
pub open spec fn spec_digit_char(d: nat) -> char {
    if d < 10 {
        (d + '0' as u32) as char
    } else {
        (d - 10 + 'a' as u32) as char
    }
}

/// `n` written in the given radix, lower case, without leading zeros;
/// zero is written `0`.
pub open spec fn number_text(n: nat, hex: bool) -> Seq<char>
    decreases n,
{
    if n < radix_of(hex) {
        seq![spec_digit_char(n)]
    } else {
        number_text(n / radix_of(hex), hex).push(spec_digit_char(n % radix_of(hex)))
    }
}

/// The digit that writes `d`.
pub fn digit_char(d: u8) -> (c: char)
    requires
        d < 16,
    ensures
        c == spec_digit_char(d as nat),
        spec_digit(c, true) == Some(d as nat),
        d < 10 ==> spec_digit(c, false) == Some(d as nat),
{
    if d < 10 {
        (d + 48) as char
    } else {
        (d - 10 + 97) as char
    }
}

/// Reading back what `number_text` wrote gives the number.
pub proof fn lemma_number_text_value(n: nat, hex: bool)
    ensures
        number_text(n, hex).len() > 0,
        all_digits(number_text(n, hex), hex),
        digits_value(number_text(n, hex), hex) == n,
        number_text(n, hex)[0] != '+',
        n > 0 ==> number_text(n, hex)[0] != '0',
    decreases n,
{
    let r = radix_of(hex);
    let t = number_text(n, hex);
    if n < r {
        assert(t.drop_last() =~= Seq::<char>::empty());
        assert(digits_value(t.drop_last(), hex) == 0);
        assert(t.last() == spec_digit_char(n));
        assert(spec_digit(spec_digit_char(n), hex) == Some(n));
    } else {
        let q = n / r;
        let d = n % r;
        lemma_number_text_value(q, hex);
        let tq = number_text(q, hex);
        assert(t.drop_last() =~= tq);
        assert(t.last() == spec_digit_char(d));
        assert(spec_digit(spec_digit_char(d), hex) == Some(d));
        assert(q * r + d == n) by (nonlinear_arith)
            requires
                q == n / r,
                d == n % r,
                r > 0,
        ;
        assert forall|i: int| 0 <= i < t.len() implies (#[trigger] spec_digit(
            t[i],
            hex,
        )).is_some() by {
            if i < tq.len() {
                assert(t[i] == tq[i]);
            }
        }
        assert(t[0] == tq[0]);
    }
}

/// Writes `n` in radix 10 or 16.
pub fn number_to_text(n: u128, hex: bool) -> (v: Vec<char>)
    ensures
        v@ == number_text(n as nat, hex),
{
    let radix: u128 = if hex {
        16
    } else {
        10
    };
    let mut rev: Vec<char> = Vec::new();
    let mut rest: u128 = n;
    // digits of the low part, least significant first
    while rest >= radix
        invariant
            radix == radix_of(hex),
            number_text(n as nat, hex) == number_text(rest as nat, hex) + rev@.reverse(),
        decreases rest,
    {
        let d = (rest % radix) as u8;
        let c = digit_char(d);
        let ghost old_rev = rev@;
        rev.push(c);
        proof {
            let q = (rest / radix) as nat;
            assert(number_text(rest as nat, hex) == number_text(q, hex).push(c));
            assert(rev@.reverse() =~= seq![c] + old_rev.reverse());
            assert(number_text(q, hex).push(c) + old_rev.reverse() =~= number_text(q, hex)
                + rev@.reverse());
        }
        rest = rest / radix;
    }
    let c = digit_char(rest as u8);
    rev.push(c);
    let ghost all_rev = rev@;
    let mut v: Vec<char> = Vec::new();
    let mut i: usize = rev.len();
    proof {
        let old_rev = all_rev.drop_last();
        assert(all_rev.reverse() =~= seq![c] + old_rev.reverse());
        assert(number_text(n as nat, hex) =~= all_rev.reverse());
    }
    while i > 0
        invariant
            i <= rev.len(),
            rev@ == all_rev,
            v@ == all_rev.reverse().take(rev.len() - i),
        decreases i,
    {
        i -= 1;
        v.push(rev[i]);
        assert(v@ =~= all_rev.reverse().take(rev.len() - i));
    }
    assert(v@ =~= all_rev.reverse());
    v
}

/// The first index at or after `from` at which `s` holds `c`, or the length
/// of `s` when there is none.
pub open spec fn find_char(s: Seq<char>, c: char, from: int) -> int
    decreases s.len() - from,
{
    if from >= s.len() {
        s.len() as int
    } else if s[from] == c {
        from
    } else {
        find_char(s, c, from + 1)
    }
}

/// The first index at or after `from` at which `v` holds `c`.
pub fn position_of(v: &Vec<char>, c: char, from: usize) -> (r: usize)
    requires
        from <= v.len(),
    ensures
        r == find_char(v@, c, from as int),
        from <= r <= v.len(),
{
    let mut i: usize = from;
    while i < v.len() && v[i] != c
        invariant
            from <= i <= v.len(),
            find_char(v@, c, from as int) == find_char(v@, c, i as int),
        decreases v.len() - i,
    {
        i += 1;
    }
    i
}

/// Where no character of `s[from..to]` is `c`, the search from `from`
/// arrives at `to`.
pub proof fn lemma_find_absent(s: Seq<char>, c: char, from: int, to: int)
    requires
        0 <= from <= to <= s.len(),
        forall|i: int| from <= i < to ==> s[i] != c,
    ensures
        find_char(s, c, from) == find_char(s, c, to),
    decreases to - from,
{
    if from < to {
        lemma_find_absent(s, c, from + 1, to);
    }
}

} // verus!
