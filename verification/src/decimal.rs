//! Integers written out in decimal.

use vstd::prelude::*;

verus! {

/// The character that stands for one decimal digit.
pub open spec fn digit_char(digit: int) -> char
    recommends
        0 <= digit <= 9,
{
    if digit == 0 {
        '0'
    } else if digit == 1 {
        '1'
    } else if digit == 2 {
        '2'
    } else if digit == 3 {
        '3'
    } else if digit == 4 {
        '4'
    } else if digit == 5 {
        '5'
    } else if digit == 6 {
        '6'
    } else if digit == 7 {
        '7'
    } else if digit == 8 {
        '8'
    } else {
        '9'
    }
}

/// The digits of a natural number, most significant first. Zero is the single
/// digit `0`; no other number starts with it.
pub open spec fn natural_digits(n: nat) -> Seq<char>
    decreases n,
{
    if n < 10 {
        seq![digit_char(n as int)]
    } else {
        natural_digits(n / 10).push(digit_char((n % 10) as int))
    }
}

/// An integer in decimal: a minus sign if it is negative, then the digits of
/// its magnitude.
pub open spec fn decimal(value: int) -> Seq<char> {
    if value < 0 {
        seq!['-'] + natural_digits((-value) as nat)
    } else {
        natural_digits(value as nat)
    }
}

/// The digit that a character stands for.
pub open spec fn digit_value(c: char) -> int
    recommends
        '0' <= c <= '9',
{
    c as int - '0' as int
}

/// The number that a run of digits denotes, read most significant first.
pub open spec fn digits_value(digits: Seq<char>) -> int
    decreases digits.len(),
{
    if digits.len() == 0 {
        0
    } else {
        10 * digits_value(digits.drop_last()) + digit_value(digits.last())
    }
}

/// The integer that a decimal text denotes.
pub open spec fn decimal_value(text: Seq<char>) -> int {
    if text.len() > 0 && text[0] == '-' {
        -digits_value(text.skip(1))
    } else {
        digits_value(text)
    }
}

/// The digits of a number are digits, at least one of them, they start with
/// `0` only for zero, and they denote the number.
pub proof fn lemma_natural_digits(n: nat)
    ensures
        natural_digits(n).len() >= 1,
        forall|i: int| 0 <= i < natural_digits(n).len() ==> '0' <= #[trigger] natural_digits(n)[i] <= '9',
        natural_digits(n)[0] == '0' <==> n == 0,
        digits_value(natural_digits(n)) == n,
    decreases n,
{
    if n < 10 {
        assert(natural_digits(n).drop_last() == Seq::<char>::empty());
        assert(digits_value(natural_digits(n)) == n) by {
            reveal_with_fuel(digits_value, 2);
        }
    } else {
        lemma_natural_digits(n / 10);
        assert(natural_digits(n).drop_last() == natural_digits(n / 10));
    }
}

/// Reading back what `decimal` wrote gives the integer it was written for.
pub proof fn lemma_decimal_round_trip(value: int)
    ensures
        decimal_value(decimal(value)) == value,
{
    if value < 0 {
        let magnitude = (-value) as nat;
        lemma_natural_digits(magnitude);
        assert(decimal(value).skip(1) == natural_digits(magnitude));
    } else {
        lemma_natural_digits(value as nat);
    }
}

/// No two integers are written alike.
pub proof fn lemma_decimal_is_injective(first: int, second: int)
    requires
        decimal(first) == decimal(second),
    ensures
        first == second,
{
    lemma_decimal_round_trip(first);
    lemma_decimal_round_trip(second);
}

/// One digit as a string of one character.
fn digit_str(digit: u64) -> (text: &'static str)
    requires
        digit <= 9,
    ensures
        text@ == seq![digit_char(digit as int)],
{
    proof {
        reveal_strlit("0");
        reveal_strlit("1");
        reveal_strlit("2");
        reveal_strlit("3");
        reveal_strlit("4");
        reveal_strlit("5");
        reveal_strlit("6");
        reveal_strlit("7");
        reveal_strlit("8");
        reveal_strlit("9");
    }
    if digit == 0 {
        "0"
    } else if digit == 1 {
        "1"
    } else if digit == 2 {
        "2"
    } else if digit == 3 {
        "3"
    } else if digit == 4 {
        "4"
    } else if digit == 5 {
        "5"
    } else if digit == 6 {
        "6"
    } else if digit == 7 {
        "7"
    } else if digit == 8 {
        "8"
    } else {
        "9"
    }
}

/// Appends the digits of `n` to `text`.
fn append_natural(text: &mut String, n: u64)
    ensures
        final(text)@ == old(text)@ + natural_digits(n as nat),
    decreases n,
{
    if n >= 10 {
        append_natural(text, n / 10);
    }
    text.append(digit_str(n % 10));
}

/// Writes `value` out in decimal.
pub fn decimal_string(value: i64) -> (text: String)
    ensures
        text@ == decimal(value as int),
{
    let mut text = String::new();
    if value < 0 {
        proof {
            reveal_strlit("-");
        }
        text.append("-");
        // `-value` does not fit for the least `i64`; `-(value + 1)` always does.
        let magnitude: u64 = (-(value + 1)) as u64 + 1;
        append_natural(&mut text, magnitude);
    } else {
        append_natural(&mut text, value as u64);
    }
    text
}

} // verus!
