//! Numbers as text.
use vstd::prelude::*;
use vstd::string::StringExecFns;

verus! {

/// The character of a digit below sixteen.
pub open spec fn digit_char(digit: int) -> char {
    let digits = seq![
        '0',
        '1',
        '2',
        '3',
        '4',
        '5',
        '6',
        '7',
        '8',
        '9',
        'a',
        'b',
        'c',
        'd',
        'e',
        'f',
    ];
    digits[digit]
}

/// Decimal digits of a number, without leading zeros.
pub open spec fn decimal(value: nat) -> Seq<char>
    decreases value,
{
    if value < 10 {
        seq![digit_char(value as int)]
    } else {
        decimal(value / 10).push(digit_char((value % 10) as int))
    }
}

/// Decimal digits of a number behind its sign.
pub open spec fn signed_decimal(value: int) -> Seq<char> {
    if value < 0 {
        seq!['-'] + decimal((-value) as nat)
    } else {
        decimal(value as nat)
    }
}

/// Hexadecimal digits of a word: a prefix and all four of them.
pub open spec fn hexadecimal(value: u16) -> Seq<char> {
    seq![
        '0',
        'x',
        digit_char(value as int / 0x1000),
        digit_char(value as int / 0x100 % 0x10),
        digit_char(value as int / 0x10 % 0x10),
        digit_char(value as int % 0x10),
    ]
}

/// The number that decimal digits stand for.
pub open spec fn decimal_value(digits: Seq<char>) -> int
    decreases digits.len(),
{
    if digits.len() == 0 {
        0
    } else {
        decimal_value(digits.drop_last()) * 10 + (digits.last() as int - '0' as int)
    }
}

/// Decimal digits stand for the number that they were made from.
pub proof fn lemma_decimal_round_trip(value: nat)
    ensures
        decimal_value(decimal(value)) == value,
        decimal(value).len() > 0,
    decreases value,
{
    let digits = decimal(value);
    let last = (value % 10) as int;
    assert(digit_char(last) as int - '0' as int == last);
    if value < 10 {
        assert(digits.drop_last() =~= Seq::empty());
        assert(decimal_value(digits.drop_last()) == 0);
    } else {
        lemma_decimal_round_trip(value / 10);
        assert(digits.drop_last() =~= decimal(value / 10));
    }
}

fn digit_text(digit: u8) -> (text: &'static str)
    requires
        digit < 16,
    ensures
        text@ == seq![digit_char(digit as int)],
{
    let text = match digit {
        0 => "0",
        1 => "1",
        2 => "2",
        3 => "3",
        4 => "4",
        5 => "5",
        6 => "6",
        7 => "7",
        8 => "8",
        9 => "9",
        10 => "a",
        11 => "b",
        12 => "c",
        13 => "d",
        14 => "e",
        _ => "f",
    };
    assert(text@ =~= seq![digit_char(digit as int)]) by {
        reveal_strlit("0");
        reveal_strlit("1");
        reveal_strlit("2");
        reveal_strlit("3");
        reveal_strlit("4");
        reveal_strlit("5");
        reveal_strlit("6");
        reveal_strlit("7");
        reveal_strlit("8");
        reveal_strlit("9");
        reveal_strlit("a");
        reveal_strlit("b");
        reveal_strlit("c");
        reveal_strlit("d");
        reveal_strlit("e");
        reveal_strlit("f");
    }
    text
}

/// Appends the decimal digits of a number.
pub(crate) fn append_decimal(text: &mut String, value: u64)
    ensures
        final(text)@ == old(text)@ + decimal(value as nat),
    decreases value,
{
    if value >= 10 {
        append_decimal(text, value / 10);
    }
    text.append(digit_text((value % 10) as u8));
    assert(text@ =~= old(text)@ + decimal(value as nat));
}

/// Appends the decimal digits of a number behind its sign.
pub(crate) fn append_signed(text: &mut String, value: i64)
    ensures
        final(text)@ == old(text)@ + signed_decimal(value as int),
{
    if value < 0 {
        proof {
            reveal_strlit("-");
            assert("-"@ =~= seq!['-']);
        }
        text.append("-");
        let magnitude: u64 = (-(value + 1)) as u64 + 1;
        append_decimal(text, magnitude);
        assert(text@ =~= old(text)@ + signed_decimal(value as int));
    } else {
        append_decimal(text, value as u64);
    }
}

/// Appends the hexadecimal digits of a word.
pub(crate) fn append_hexadecimal(text: &mut String, value: u16)
    ensures
        final(text)@ == old(text)@ + hexadecimal(value),
{
    proof {
        reveal_strlit("0x");
        assert("0x"@ =~= seq!['0', 'x']);
    }
    text.append("0x");
    text.append(digit_text((value / 0x1000) as u8));
    text.append(digit_text((value / 0x100 % 0x10) as u8));
    text.append(digit_text((value / 0x10 % 0x10) as u8));
    text.append(digit_text((value % 0x10) as u8));
    assert(text@ =~= old(text)@ + hexadecimal(value));
}

} // verus!
