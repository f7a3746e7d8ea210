//! Numbers as the protocol writes them: coordinates in decimal, color
//! channels as two hexadecimal digits.

use vstd::prelude::*;
use crate::text::{is_space, is_word};

verus! {

/// Whether `c` is one of the digits `0` to `9`.
pub open spec fn is_digit(c: char) -> bool {
    0x30 <= c as u32 <= 0x39
}

/// The value of the decimal digit `c`.
pub open spec fn digit_value(c: char) -> nat
    recommends
        is_digit(c),
{
    (c as u32 - 0x30) as nat
}

/// The decimal digit for `d`.
pub open spec fn digit_char(d: nat) -> char
    recommends
        d < 10,
{
    (d + 0x30) as u8 as char
}

/// Whether `s` is a decimal numeral: one digit or more, and nothing else.
pub open spec fn is_decimal(s: Seq<char>) -> bool {
    s.len() > 0 && forall|i: int| 0 <= i < s.len() ==> is_digit(#[trigger] s[i])
}

/// The number that the digits of `s` write in base ten.
pub open spec fn decimal_value(s: Seq<char>) -> nat
    decreases s.len(),
{
    if s.len() == 0 {
        0
    } else {
        decimal_value(s.drop_last()) * 10 + digit_value(s.last())
    }
}

/// The `u32` that `s` writes: there is one where `s` is a decimal numeral
/// whose value fits.
pub open spec fn decimal_u32(s: Seq<char>) -> Option<u32> {
    if is_decimal(s) && decimal_value(s) <= u32::MAX {
        Some(decimal_value(s) as u32)
    } else {
        None
    }
}

/// The decimal numeral for `n`, without leading zeros.
pub open spec fn decimal_digits(n: nat) -> Seq<char>
    decreases n,
{
    if n < 10 {
        seq![digit_char(n)]
    } else {
        decimal_digits(n / 10).push(digit_char(n % 10))
    }
}

/// A numeral is worth at least as much as each of its beginnings.
pub proof fn lemma_decimal_value_grows(s: Seq<char>, k: int)
    requires
        0 <= k <= s.len(),
    ensures
        decimal_value(s.take(k)) <= decimal_value(s),
    decreases s.len(),
{
    if k == s.len() {
        assert(s.take(k) == s);
    } else {
        lemma_decimal_value_grows(s.drop_last(), k);
        assert(s.drop_last().take(k) == s.take(k));
    }
}

/// What `decimal_digits` writes is a numeral, and reads back as the number
/// it was written for.
pub proof fn lemma_decimal_round_trip(n: nat)
    ensures
        is_decimal(decimal_digits(n)),
        decimal_value(decimal_digits(n)) == n,
    decreases n,
{
    let s = decimal_digits(n);
    if n < 10 {
        assert(decimal_value(s.drop_last()) == 0);
    } else {
        lemma_decimal_round_trip(n / 10);
        assert(s.drop_last() == decimal_digits(n / 10));
    }
}

/// A decimal numeral holds no space.
pub proof fn lemma_decimal_is_word(s: Seq<char>)
    requires
        is_decimal(s),
    ensures
        is_word(s),
{
}

/// Reads a decimal numeral: the `u32` it writes, or `None` where `digits`
/// holds anything but digits, holds none, or writes a number too large.
pub fn parse_u32(digits: &[char]) -> (value: Option<u32>)
    ensures
        value == decimal_u32(digits@),
{
    if digits.len() == 0 {
        return None;
    }
    let mut total: u32 = 0;
    let mut i: usize = 0;
    while i < digits.len()
        invariant
            i <= digits.len(),
            forall|j: int| 0 <= j < i ==> is_digit(#[trigger] digits@[j]),
            total == decimal_value(digits@.take(i as int)),
        decreases digits.len() - i,
    {
        let code: u32 = digits[i] as u32;
        if code < 0x30 || code > 0x39 {
            return None;
        }
        let digit: u32 = code - 0x30;
        proof {
            assert(digits@.take(i + 1).drop_last() == digits@.take(i as int));
            lemma_decimal_value_grows(digits@, i + 1);
        }
        if total > (u32::MAX - digit) / 10 {
            return None;
        }
        total = total * 10 + digit;
        i += 1;
    }
    proof {
        assert(digits@.take(i as int) == digits@);
    }
    Some(total)
}

/// The text of one decimal digit.
fn digit_text(d: u8) -> (text: &'static str)
    requires
        d < 10,
    ensures
        text@ == seq![digit_char(d as nat)],
{
    proof {
        reveal_strlit("0");
        reveal_strlit("1");
        reveal_strlit("2");
        reveal_strlit("3");
        reveal_strlit("4");
        reveal_strlit("5");
        reveal_strlit("6");
        reveal_strlit("7");
        reveal_strlit("8");
        reveal_strlit("9");
    }
    match d {
        0 => "0",
        1 => "1",
        2 => "2",
        3 => "3",
        4 => "4",
        5 => "5",
        6 => "6",
        7 => "7",
        8 => "8",
        _ => "9",
    }
}

/// Writes `n` in decimal at the end of `out`.
pub fn push_decimal(out: &mut String, n: u64)
    ensures
        final(out)@ == old(out)@ + decimal_digits(n as nat),
    decreases n,
{
    if n >= 10 {
        push_decimal(out, n / 10);
    }
    out.append(digit_text((n % 10) as u8));
}

/// The value of the hexadecimal digit `c`, written in either case; `None`
/// where `c` is no such digit.
pub open spec fn hex_value(c: char) -> Option<nat> {
    let n = c as u32;
    if 0x30 <= n <= 0x39 {
        Some((n - 0x30) as nat)
    } else if 0x61 <= n <= 0x66 {
        Some((n - 0x57) as nat)
    } else if 0x41 <= n <= 0x46 {
        Some((n - 0x37) as nat)
    } else {
        None
    }
}

/// The hexadecimal digit for `d`, in lower case.
pub open spec fn hex_char(d: nat) -> char
    recommends
        d < 16,
{
    if d < 10 {
        (d + 0x30) as u8 as char
    } else {
        (d + 0x57) as u8 as char
    }
}

/// The byte that the two hexadecimal digits `high` and `low` write; `None`
/// where one of them is no such digit.
pub open spec fn hex_byte(high: char, low: char) -> Option<u8> {
    match (hex_value(high), hex_value(low)) {
        (Some(h), Some(l)) => Some((h * 16 + l) as u8),
        _ => None,
    }
}

/// The two hexadecimal digits of `b`, in lower case.
pub open spec fn hex_digits(b: u8) -> Seq<char> {
    seq![hex_char(b as nat / 16), hex_char(b as nat % 16)]
}

/// The two digits that `hex_digits` writes read back as the byte they were
/// written for.
pub proof fn lemma_hex_round_trip(b: u8)
    ensures
        hex_byte(hex_digits(b)[0], hex_digits(b)[1]) == Some(b),
{
}

/// The two digits that `hex_digits` writes are no spaces.
pub proof fn lemma_hex_digits_no_space(b: u8)
    ensures
        !is_space(hex_digits(b)[0]),
        !is_space(hex_digits(b)[1]),
{
}

/// The value of one hexadecimal digit.
fn parse_hex_digit(c: char) -> (value: Option<u8>)
    ensures
        value is Some <==> hex_value(c) is Some,
        value is Some ==> value->0 == hex_value(c)->0,
{
    let n: u32 = c as u32;
    if 0x30 <= n && n <= 0x39 {
        Some((n - 0x30) as u8)
    } else if 0x61 <= n && n <= 0x66 {
        Some((n - 0x57) as u8)
    } else if 0x41 <= n && n <= 0x46 {
        Some((n - 0x37) as u8)
    } else {
        None
    }
}

/// Reads the byte that two hexadecimal digits write.
pub fn parse_hex_byte(high: char, low: char) -> (value: Option<u8>)
    ensures
        value == hex_byte(high, low),
{
    match (parse_hex_digit(high), parse_hex_digit(low)) {
        (Some(h), Some(l)) => Some(h * 16 + l),
        _ => None,
    }
}

/// The text of one hexadecimal digit.
fn hex_text(d: u8) -> (text: &'static str)
    requires
        d < 16,
    ensures
        text@ == seq![hex_char(d as nat)],
{
    proof {
        reveal_strlit("0");
        reveal_strlit("1");
        reveal_strlit("2");
        reveal_strlit("3");
        reveal_strlit("4");
        reveal_strlit("5");
        reveal_strlit("6");
        reveal_strlit("7");
        reveal_strlit("8");
        reveal_strlit("9");
        reveal_strlit("a");
        reveal_strlit("b");
        reveal_strlit("c");
        reveal_strlit("d");
        reveal_strlit("e");
        reveal_strlit("f");
    }
    match d {
        0 => "0",
        1 => "1",
        2 => "2",
        3 => "3",
        4 => "4",
        5 => "5",
        6 => "6",
        7 => "7",
        8 => "8",
        9 => "9",
        10 => "a",
        11 => "b",
        12 => "c",
        13 => "d",
        14 => "e",
        _ => "f",
    }
}

/// Writes `b` as two hexadecimal digits, in lower case, at the end of `out`.
pub fn push_hex(out: &mut String, b: u8)
    ensures
        final(out)@ == old(out)@ + hex_digits(b),
{
    out.append(hex_text(b / 16));
    out.append(hex_text(b % 16));
}

} // verus!
