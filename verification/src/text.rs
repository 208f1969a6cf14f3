//! Numbers as they are written in the answers of the command.

use vstd::prelude::*;

verus! {

/// The character that stands for a digit.
pub open spec fn digit_char(digit: nat) -> char {
    if digit == 0 {
        '0'
    } else if digit == 1 {
        '1'
    } else if digit == 2 {
        '2'
    } else if digit == 3 {
        '3'
    } else if digit == 4 {
        '4'
    } else if digit == 5 {
        '5'
    } else if digit == 6 {
        '6'
    } else if digit == 7 {
        '7'
    } else if digit == 8 {
        '8'
    } else {
        '9'
    }
}

/// A number in decimal, most significant digit first, without leading
/// zeros; zero is written `0`.
pub open spec fn decimal(number: nat) -> Seq<char>
    decreases number,
{
    if number < 10 {
        seq![digit_char(number)]
    } else {
        decimal(number / 10) + seq![digit_char(number % 10)]
    }
}

/// One digit as a string.
fn digit_text(digit: usize) -> (text: &'static str)
    requires
        digit < 10,
    ensures
        text@ == seq![digit_char(digit as nat)],
{
    proof {
        reveal_strlit("0");
        reveal_strlit("1");
        reveal_strlit("2");
        reveal_strlit("3");
        reveal_strlit("4");
        reveal_strlit("5");
        reveal_strlit("6");
        reveal_strlit("7");
        reveal_strlit("8");
        reveal_strlit("9");
    }
    let text = if digit == 0 {
        "0"
    } else if digit == 1 {
        "1"
    } else if digit == 2 {
        "2"
    } else if digit == 3 {
        "3"
    } else if digit == 4 {
        "4"
    } else if digit == 5 {
        "5"
    } else if digit == 6 {
        "6"
    } else if digit == 7 {
        "7"
    } else if digit == 8 {
        "8"
    } else {
        "9"
    };
    assert(text@ =~= seq![digit_char(digit as nat)]);
    text
}

/// Writes a number in decimal.
pub fn decimal_string(number: usize) -> (text: String)
    ensures
        text@ == decimal(number as nat),
    decreases number,
{
    if number < 10 {
        String::from_str(digit_text(number))
    } else {
        let head = decimal_string(number / 10);
        head.concat(digit_text(number % 10))
    }
}

/// The number that a digit stands for.
pub open spec fn digit_value(digit: char) -> nat {
    if digit == '1' {
        1
    } else if digit == '2' {
        2
    } else if digit == '3' {
        3
    } else if digit == '4' {
        4
    } else if digit == '5' {
        5
    } else if digit == '6' {
        6
    } else if digit == '7' {
        7
    } else if digit == '8' {
        8
    } else if digit == '9' {
        9
    } else {
        0
    }
}

/// The number that a sequence of digits spells.
pub open spec fn spelled(digits: Seq<char>) -> nat
    decreases digits.len(),
{
    if digits.len() == 0 {
        0
    } else {
        spelled(digits.drop_last()) * 10 + digit_value(digits.last())
    }
}

/// What is written spells the number it was written for, so no two numbers
/// are written alike.
pub proof fn lemma_decimal_spells_its_number(number: nat)
    ensures
        spelled(decimal(number)) == number,
    decreases number,
{
    if number < 10 {
        let digits = decimal(number);
        assert(digits.drop_last() =~= Seq::<char>::empty());
        assert(spelled(digits.drop_last()) == 0);
    } else {
        let head = decimal(number / 10);
        let digits = decimal(number);
        lemma_decimal_spells_its_number(number / 10);
        assert(digits.drop_last() =~= head);
        assert(digits.last() == digit_char(number % 10));
    }
}

} // verus!
