//! Numbers as text.

use vstd::prelude::*;
use vstd::string::{StrSliceExecFns, StringExecFns};

verus! {

/// The character of one decimal digit.
pub open spec fn digit_char(digit: int) -> char {
    if digit == 0 {
        '0'
    } else if digit == 1 {
        '1'
    } else if digit == 2 {
        '2'
    } else if digit == 3 {
        '3'
    } else if digit == 4 {
        '4'
    } else if digit == 5 {
        '5'
    } else if digit == 6 {
        '6'
    } else if digit == 7 {
        '7'
    } else if digit == 8 {
        '8'
    } else {
        '9'
    }
}

/// The decimal digits of a number, without leading zeros.
pub open spec fn decimal(number: nat) -> Seq<char>
    decreases number,
{
    if number < 10 {
        seq![digit_char(number as int)]
    } else {
        decimal(number / 10).push(digit_char((number % 10) as int))
    }
}

/// The text of one decimal digit.
fn digit_text(digit: u64) -> (text: &'static str)
    requires
        digit < 10,
    ensures
        text@ == seq![digit_char(digit as int)],
{
    proof {
        reveal_strlit("0");
        reveal_strlit("1");
        reveal_strlit("2");
        reveal_strlit("3");
        reveal_strlit("4");
        reveal_strlit("5");
        reveal_strlit("6");
        reveal_strlit("7");
        reveal_strlit("8");
        reveal_strlit("9");
    }
    let text = if digit == 0 {
        "0"
    } else if digit == 1 {
        "1"
    } else if digit == 2 {
        "2"
    } else if digit == 3 {
        "3"
    } else if digit == 4 {
        "4"
    } else if digit == 5 {
        "5"
    } else if digit == 6 {
        "6"
    } else if digit == 7 {
        "7"
    } else if digit == 8 {
        "8"
    } else {
        "9"
    };
    assert(text@ =~= seq![digit_char(digit as int)]);
    text
}

/// Writes a number in decimal digits.
pub fn decimal_text(number: u64) -> (text: String)
    ensures
        text@ == decimal(number as nat),
    decreases number,
{
    if number < 10 {
        String::from_str(digit_text(number))
    } else {
        let mut text = decimal_text(number / 10);
        text.append(digit_text(number % 10));
        assert(text@ =~= decimal(number as nat));
        text
    }
}

/// A number as text, with a minus sign before the digits of a negative one.
pub open spec fn signed_decimal(number: int) -> Seq<char> {
    if number < 0 {
        "-"@ + decimal((-number) as nat)
    } else {
        decimal(number as nat)
    }
}

/// Writes a number that may be negative in decimal digits.
pub fn signed_decimal_text(number: i64) -> (text: String)
    ensures
        text@ == signed_decimal(number as int),
{
    if number >= 0 {
        decimal_text(number as u64)
    } else {
        let magnitude: u64 = (-(number + 1)) as u64 + 1;
        let digits = decimal_text(magnitude);
        let mut text = String::from_str("-");
        text.append(digits.as_str());
        text
    }
}

/// Whether a character is a decimal digit.
pub open spec fn is_digit(c: char) -> bool {
    48 <= c as int <= 57
}

/// The number that a sequence of decimal digits stands for.
pub open spec fn digits_value(digits: Seq<char>) -> int
    decreases digits.len(),
{
    if digits.len() == 0 {
        0
    } else {
        digits_value(digits.drop_last()) * 10 + (digits.last() as int - 48)
    }
}

/// Whether every character is a decimal digit.
pub open spec fn all_digits(digits: Seq<char>) -> bool {
    forall|i: int| 0 <= i < digits.len() ==> is_digit(#[trigger] digits[i])
}

/// The number that a run of digits stands for: none for an empty run, for
/// one that holds anything but digits, and for a value above `max`.
pub open spec fn parsed_digits(digits: Seq<char>, max: int) -> Option<int> {
    if digits.len() > 0 && all_digits(digits) && digits_value(digits) <= max {
        Some(digits_value(digits))
    } else {
        None
    }
}

/// A text without the plus sign that it may begin with.
pub open spec fn unsigned_part(text: Seq<char>) -> Seq<char> {
    if text.len() > 0 && text[0] == '+' {
        text.skip(1)
    } else {
        text
    }
}

/// The number that a text stands for: one or more decimal digits, with or
/// without a plus sign before them, whose value is at most `max`.
pub open spec fn parsed_unsigned(text: Seq<char>, max: int) -> Option<int> {
    parsed_digits(unsigned_part(text), max)
}

/// The number that a text stands for: one or more decimal digits, with or
/// without a sign before them, whose value is at least `min` and at most
/// `max`.
pub open spec fn parsed_signed(text: Seq<char>, min: int, max: int) -> Option<int> {
    if text.len() > 0 && text[0] == '-' {
        match parsed_digits(text.skip(1), -min) {
            Some(value) => Some(-value),
            None => None,
        }
    } else {
        parsed_unsigned(text, max)
    }
}

/// The value of digits is not negative and does not shrink as digits
/// follow.
pub proof fn lemma_digits_value_grows(digits: Seq<char>, upto: int)
    requires
        all_digits(digits),
        0 <= upto <= digits.len(),
    ensures
        0 <= digits_value(digits.take(upto)) <= digits_value(digits),
    decreases digits.len(),
{
    if digits.len() == 0 {
        assert(digits.take(upto) =~= digits);
    } else if upto == digits.len() {
        assert(digits.take(upto) =~= digits);
        let rest = digits.drop_last();
        assert forall|i: int| 0 <= i < rest.len() implies is_digit(#[trigger] rest[i]) by {
            assert(rest[i] == digits[i]);
        }
        lemma_digits_value_grows(rest, rest.len() as int);
        assert(is_digit(digits[digits.len() - 1]));
    } else {
        let rest = digits.drop_last();
        assert forall|i: int| 0 <= i < rest.len() implies is_digit(#[trigger] rest[i]) by {
            assert(rest[i] == digits[i]);
        }
        lemma_digits_value_grows(rest, upto);
        assert(rest.take(upto) =~= digits.take(upto));
        assert(is_digit(digits[digits.len() - 1]));
    }
}

/// Reads the characters of `text` from `from` up to `to` as a run of
/// digits.
pub fn parse_digits(text: &str, from: usize, to: usize, max: u64) -> (number: Option<u64>)
    requires
        from <= to <= text@.len(),
    ensures
        match number {
            Some(value) => parsed_digits(text@.subrange(from as int, to as int), max as int)
                == Some(value as int),
            None => parsed_digits(text@.subrange(from as int, to as int), max as int) is None,
        },
{
    let ghost digits = text@.subrange(from as int, to as int);
    if from == to {
        return None;
    }
    let mut value: u64 = 0;
    let mut i: usize = from;
    while i < to
        invariant
            from <= i <= to <= text@.len(),
            digits == text@.subrange(from as int, to as int),
            all_digits(digits.take(i - from)),
            value == digits_value(digits.take(i - from)),
            value <= max,
        decreases to - i,
    {
        let c = text.get_char(i);
        let code: u32 = c as u32;
        let ghost seen = digits.take(i - from);
        let ghost more = digits.take(i - from + 1);
        proof {
            assert(digits[i - from] == c);
            assert(more.drop_last() =~= seen);
            assert(more.last() == c);
        }
        if code < 48 || code > 57 {
            proof {
                assert(!is_digit(digits[i - from]));
            }
            return None;
        }
        proof {
            assert forall|k: int| 0 <= k < more.len() implies is_digit(#[trigger] more[k]) by {
                if k < seen.len() {
                    assert(more[k] == seen[k]);
                }
            }
        }
        let digit: u64 = (code - 48) as u64;
        if digit > max || value > (max - digit) / 10 {
            proof {
                assert(digits_value(more) > max);
                if all_digits(digits) {
                    lemma_digits_value_grows(digits, i - from + 1);
                }
            }
            return None;
        }
        value = value * 10 + digit;
        i = i + 1;
    }
    proof {
        assert(digits.take(i - from) =~= digits);
    }
    Some(value)
}

/// Reads the characters of `text` from `from` up to `to` as a number
/// without a minus sign.
pub fn parse_unsigned(text: &str, from: usize, to: usize, max: u64) -> (number: Option<u64>)
    requires
        from <= to <= text@.len(),
    ensures
        match number {
            Some(value) => parsed_unsigned(text@.subrange(from as int, to as int), max as int)
                == Some(value as int),
            None => parsed_unsigned(text@.subrange(from as int, to as int), max as int) is None,
        },
{
    let ghost piece = text@.subrange(from as int, to as int);
    if from < to && text.get_char(from) == '+' {
        proof {
            assert(piece[0] == '+');
            assert(piece.skip(1) =~= text@.subrange(from as int + 1, to as int));
        }
        parse_digits(text, from + 1, to, max)
    } else {
        proof {
            if from < to {
                assert(piece[0] == text@[from as int]);
            }
        }
        parse_digits(text, from, to, max)
    }
}

/// Reads the characters of `text` from `from` up to `to` as a number of
/// 32 bits with or without a sign.
pub fn parse_signed(text: &str, from: usize, to: usize) -> (number: Option<i32>)
    requires
        from <= to <= text@.len(),
    ensures
        match number {
            Some(value) => parsed_signed(
                text@.subrange(from as int, to as int),
                i32::MIN as int,
                i32::MAX as int,
            ) == Some(value as int),
            None => parsed_signed(
                text@.subrange(from as int, to as int),
                i32::MIN as int,
                i32::MAX as int,
            ) is None,
        },
{
    let ghost piece = text@.subrange(from as int, to as int);
    if from < to && text.get_char(from) == '-' {
        proof {
            assert(piece[0] == '-');
            assert(piece.skip(1) =~= text@.subrange(from as int + 1, to as int));
        }
        match parse_digits(text, from + 1, to, 2_147_483_648) {
            Some(value) => {
                let negative: i64 = -(value as i64);
                Some(negative as i32)
            },
            None => None,
        }
    } else {
        proof {
            if from < to {
                assert(piece[0] == text@[from as int]);
            }
        }
        match parse_unsigned(text, from, to, 2_147_483_647) {
            Some(value) => Some(value as i32),
            None => None,
        }
    }
}

} // verus!
