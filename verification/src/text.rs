//! Numbers and comparisons as the library's messages spell them.

use vstd::prelude::*;
use vstd::string::StringExecFns;

verus! {

/// The character of one digit of a numeral in base sixteen or less.
pub open spec fn digit_char(digit: nat) -> char
    recommends
        digit < 16,
{
    let digits = seq![
        '0',
        '1',
        '2',
        '3',
        '4',
        '5',
        '6',
        '7',
        '8',
        '9',
        'a',
        'b',
        'c',
        'd',
        'e',
        'f',
    ];
    digits[digit as int]
}

/// The decimal numeral of `value`, without leading zeros.
pub open spec fn decimal(value: nat) -> Seq<char>
    decreases value,
{
    if value < 10 {
        seq![digit_char(value)]
    } else {
        decimal(value / 10).push(digit_char(value % 10))
    }
}

/// The hexadecimal numeral of `value` in exactly `width` digits.
pub open spec fn hexadecimal(value: nat, width: nat) -> Seq<char>
    decreases width,
{
    if width == 0 {
        seq![]
    } else {
        hexadecimal(value / 16, (width - 1) as nat).push(digit_char(value % 16))
    }
}

/// The digit as text.
fn digit_text(digit: u32) -> (text: &'static str)
    requires
        digit < 16,
    ensures
        text@ == seq![digit_char(digit as nat)],
{
    proof {
        reveal_strlit("0");
        reveal_strlit("1");
        reveal_strlit("2");
        reveal_strlit("3");
        reveal_strlit("4");
        reveal_strlit("5");
        reveal_strlit("6");
        reveal_strlit("7");
        reveal_strlit("8");
        reveal_strlit("9");
        reveal_strlit("a");
        reveal_strlit("b");
        reveal_strlit("c");
        reveal_strlit("d");
        reveal_strlit("e");
        reveal_strlit("f");
    }
    match digit {
        0 => "0",
        1 => "1",
        2 => "2",
        3 => "3",
        4 => "4",
        5 => "5",
        6 => "6",
        7 => "7",
        8 => "8",
        9 => "9",
        10 => "a",
        11 => "b",
        12 => "c",
        13 => "d",
        14 => "e",
        _ => "f",
    }
}

/// Appends the decimal numeral of `value`.
pub(crate) fn append_decimal(text: &mut String, value: u64)
    ensures
        final(text)@ == old(text)@ + decimal(value as nat),
    decreases value,
{
    if value >= 10 {
        append_decimal(text, value / 10);
    }
    text.append(digit_text((value % 10) as u32));
    proof {
        assert(final(text)@ =~= old(text)@ + decimal(value as nat));
    }
}

/// The decimal numeral of `value` as text.
pub(crate) fn decimal_text(value: u64) -> (text: String)
    ensures
        text@ == decimal(value as nat),
{
    let mut text = String::from_str("");
    append_decimal(&mut text, value);
    proof {
        reveal_strlit("");
        assert(text@ =~= decimal(value as nat));
    }
    text
}

/// Appends the hexadecimal numeral of `value` in exactly `width` digits.
pub(crate) fn append_hexadecimal(text: &mut String, value: u32, width: u32)
    ensures
        final(text)@ == old(text)@ + hexadecimal(value as nat, width as nat),
    decreases width,
{
    if width > 0 {
        append_hexadecimal(text, value / 16, width - 1);
        text.append(digit_text(value % 16));
    }
    proof {
        assert(final(text)@ =~= old(text)@ + hexadecimal(value as nat, width as nat));
    }
}

/// What is said of two values that had to be equal and are not: `message`, and the
/// two values, each on a line of its own.
pub open spec fn unequal(message: Seq<char>, left: Seq<char>, right: Seq<char>) -> Seq<char> {
    "assertion `left == right` failed: "@ + message + "\n  left: "@ + left + "\n right: "@ + right
}

/// What is said of two values that had to be equal and are not.
pub(crate) fn unequal_text(message: &str, left: &str, right: &str) -> (text: String)
    ensures
        text@ == unequal(message@, left@, right@),
{
    let mut text = String::from_str("assertion `left == right` failed: ");
    text.append(message);
    text.append("\n  left: ");
    text.append(left);
    text.append("\n right: ");
    text.append(right);
    text
}

} // verus!
