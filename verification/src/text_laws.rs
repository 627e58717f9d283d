//! What written numbers stand for.
use crate::text::{
    decimal, decimal_value, digit_char, hexadecimal, lemma_decimal_round_trip, signed_decimal,
};
use vstd::prelude::*;

verus! {

/// The number that a hexadecimal digit stands for.
pub open spec fn hexadecimal_digit(digit: char) -> int {
    if '0' <= digit && digit <= '9' {
        digit as int - '0' as int
    } else {
        digit as int - 'a' as int + 10
    }
}

/// The number that hexadecimal digits stand for.
pub open spec fn hexadecimal_value(digits: Seq<char>) -> int
    decreases digits.len(),
{
    if digits.len() == 0 {
        0
    } else {
        hexadecimal_value(digits.drop_last()) * 16 + hexadecimal_digit(digits.last())
    }
}

proof fn lemma_digit(digit: int)
    requires
        0 <= digit < 16,
    ensures
        hexadecimal_digit(digit_char(digit)) == digit,
{
}

/// A word is written as four hexadecimal digits behind `0x`, which stand for it.
pub proof fn lemma_words_are_read_back(value: u16)
    ensures
        hexadecimal(value).len() == 6,
        hexadecimal(value)[0] == '0',
        hexadecimal(value)[1] == 'x',
        hexadecimal_value(hexadecimal(value).skip(2)) == value,
{
    let digits = hexadecimal(value).skip(2);
    let number = value as int;
    lemma_digit(number / 0x1000);
    lemma_digit(number / 0x100 % 0x10);
    lemma_digit(number / 0x10 % 0x10);
    lemma_digit(number % 0x10);
    let three = digits.drop_last();
    let two = three.drop_last();
    let one = two.drop_last();
    assert(one.drop_last() =~= Seq::empty());
    assert(digits.last() == digit_char(number % 0x10));
    assert(three.last() == digit_char(number / 0x10 % 0x10));
    assert(two.last() == digit_char(number / 0x100 % 0x10));
    assert(one.last() == digit_char(number / 0x1000));
    assert(hexadecimal_value(one.drop_last()) == 0);
    assert(hexadecimal_value(one) == number / 0x1000);
    assert(hexadecimal_value(two) == number / 0x100);
    assert(hexadecimal_value(three) == number / 0x10);
}

/// A number is written without zeros in front, from decimal digits alone.
pub proof fn lemma_decimals_start_with_a_digit(value: nat)
    ensures
        value > 0 ==> decimal(value)[0] != '0',
        value == 0 ==> decimal(value) == seq!['0'],
        forall|i: int| 0 <= i < decimal(value).len() ==> '0' <= #[trigger] decimal(value)[i] <= '9',
    decreases value,
{
    if value >= 10 {
        lemma_decimals_start_with_a_digit(value / 10);
        lemma_decimal_round_trip(value / 10);
    }
}

/// A number below zero is written as a minus sign and the number above zero that
/// cancels it. Any other is written without a sign.
pub proof fn lemma_signs_stand_in_front(value: int)
    ensures
        value < 0 ==> signed_decimal(value)[0] == '-' && decimal_value(
            signed_decimal(value).skip(1),
        ) == -value,
        value >= 0 ==> signed_decimal(value)[0] != '-' && decimal_value(signed_decimal(value))
            == value,
{
    if value < 0 {
        lemma_decimal_round_trip((-value) as nat);
        assert(signed_decimal(value).skip(1) =~= decimal((-value) as nat));
    } else {
        lemma_decimal_round_trip(value as nat);
        lemma_decimals_start_with_a_digit(value as nat);
    }
}

} // verus!
