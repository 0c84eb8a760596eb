//! Numbers as text.

use vstd::prelude::*;
use vstd::string::StringExecFns;

verus! {

/// The character for a digit below 16, letters in upper case.
pub open spec fn digit_char(value: int) -> char {
    if value == 0 {
        '0'
    } else if value == 1 {
        '1'
    } else if value == 2 {
        '2'
    } else if value == 3 {
        '3'
    } else if value == 4 {
        '4'
    } else if value == 5 {
        '5'
    } else if value == 6 {
        '6'
    } else if value == 7 {
        '7'
    } else if value == 8 {
        '8'
    } else if value == 9 {
        '9'
    } else if value == 10 {
        'A'
    } else if value == 11 {
        'B'
    } else if value == 12 {
        'C'
    } else if value == 13 {
        'D'
    } else if value == 14 {
        'E'
    } else {
        'F'
    }
}

/// The hexadecimal digits of a number in upper case, without leading
/// zeros; a single `0` for zero.
pub open spec fn hex_digits(value: nat) -> Seq<char>
    decreases value,
{
    if value < 16 {
        seq![digit_char(value as int)]
    } else {
        hex_digits(value / 16).push(digit_char((value % 16) as int))
    }
}

/// The decimal digits of a number, without leading zeros; a single `0` for
/// zero.
pub open spec fn decimal_digits(value: nat) -> Seq<char>
    decreases value,
{
    if value < 10 {
        seq![digit_char(value as int)]
    } else {
        decimal_digits(value / 10).push(digit_char((value % 10) as int))
    }
}

/// A number in decimal, with a minus sign in front where it is negative.
pub open spec fn signed_decimal_text(value: int) -> Seq<char> {
    if value < 0 {
        seq!['-'] + decimal_digits((-value) as nat)
    } else {
        decimal_digits(value as nat)
    }
}

/// A byte as `0x` and two hexadecimal digits in upper case.
pub open spec fn hex_byte_text(byte: u8) -> Seq<char> {
    seq!['0', 'x', digit_char(byte as int / 16), digit_char(byte as int % 16)]
}

/// A word as `0x` and its hexadecimal digits in upper case.
pub open spec fn hex_word_text(word: u32) -> Seq<char> {
    seq!['0', 'x'] + hex_digits(word as nat)
}

/// The text of one digit.
fn digit_text(value: u8) -> (text: &'static str)
    requires
        value < 16,
    ensures
        text@ =~= seq![digit_char(value as int)],
{
    proof {
        reveal_strlit("0");
        reveal_strlit("1");
        reveal_strlit("2");
        reveal_strlit("3");
        reveal_strlit("4");
        reveal_strlit("5");
        reveal_strlit("6");
        reveal_strlit("7");
        reveal_strlit("8");
        reveal_strlit("9");
        reveal_strlit("A");
        reveal_strlit("B");
        reveal_strlit("C");
        reveal_strlit("D");
        reveal_strlit("E");
        reveal_strlit("F");
    }
    match value {
        0 => "0",
        1 => "1",
        2 => "2",
        3 => "3",
        4 => "4",
        5 => "5",
        6 => "6",
        7 => "7",
        8 => "8",
        9 => "9",
        10 => "A",
        11 => "B",
        12 => "C",
        13 => "D",
        14 => "E",
        _ => "F",
    }
}

/// The hexadecimal digits of a number.
fn hex_digits_text(value: u32) -> (text: String)
    ensures
        text@ == hex_digits(value as nat),
    decreases value,
{
    if value < 16 {
        String::from_str(digit_text(value as u8))
    } else {
        let text = hex_digits_text(value / 16).concat(digit_text((value % 16) as u8));
        assert(text@ =~= hex_digits(value as nat));
        text
    }
}

/// The decimal digits of a number.
pub fn format_decimal(value: u64) -> (text: String)
    ensures
        text@ == decimal_digits(value as nat),
    decreases value,
{
    if value < 10 {
        String::from_str(digit_text(value as u8))
    } else {
        let text = format_decimal(value / 10).concat(digit_text((value % 10) as u8));
        assert(text@ =~= decimal_digits(value as nat));
        text
    }
}

/// A byte as `0x` and two hexadecimal digits in upper case.
pub fn format_hex_byte(byte: u8) -> (text: String)
    ensures
        text@ == hex_byte_text(byte),
{
    proof {
        reveal_strlit("0x");
    }
    let text = String::from_str("0x").concat(digit_text(byte / 16)).concat(
        digit_text(byte % 16),
    );
    assert(text@ =~= hex_byte_text(byte));
    text
}

/// A word as `0x` and its hexadecimal digits in upper case, without
/// leading zeros.
pub fn format_hex_word(word: u32) -> (text: String)
    ensures
        text@ == hex_word_text(word),
{
    proof {
        reveal_strlit("0x");
    }
    let text = String::from_str("0x").concat(hex_digits_text(word).as_str());
    assert(text@ =~= hex_word_text(word));
    text
}

/// A word read as a signed number, in decimal.
pub fn format_signed_decimal(word: u32) -> (text: String)
    ensures
        text@ == signed_decimal_text(
            if word >= 0x8000_0000 {
                word - 0x1_0000_0000
            } else {
                word as int
            },
        ),
{
    if word >= 0x8000_0000 {
        proof {
            reveal_strlit("-");
        }
        let magnitude: u64 = 0x1_0000_0000 - word as u64;
        let text = String::from_str("-").concat(format_decimal(magnitude).as_str());
        assert(text@ =~= seq!['-'] + decimal_digits(magnitude as nat));
        text
    } else {
        format_decimal(word as u64)
    }
}

} // verus!
