//! The text typed at the goto prompt, read as an index.
//!
//! An index is written as one or more decimal digits, with an optional `+`
//! in front and nothing else around them.

use vstd::prelude::*;

verus! {

/// Whether `c` is one of the ten decimal digits.
pub open spec fn is_digit(c: char) -> bool {
    '0' <= c <= '9'
}

/// The number that the digit `c` stands for.
pub open spec fn digit_value(c: char) -> nat {
    (c as nat - '0' as nat) as nat
}

/// The number that a run of digits writes, the first digit counting most.
pub open spec fn digits_value(digits: Seq<char>) -> nat
    decreases digits.len(),
{
    if digits.len() == 0 {
        0
    } else {
        digits_value(digits.drop_last()) * 10 + digit_value(digits.last())
    }
}

/// The digits of a text: the text without the `+` sign that it may begin
/// with.
pub open spec fn unsigned_part(text: Seq<char>) -> Seq<char> {
    if text.len() > 0 && text[0] == '+' {
        text.drop_first()
    } else {
        text
    }
}

/// The index that `text` writes, if it writes one that `usize` holds.
pub open spec fn parsed_index(text: Seq<char>) -> Option<usize> {
    let digits = unsigned_part(text);
    if digits.len() > 0 && (forall|i: int| 0 <= i < digits.len() ==> is_digit(#[trigger] digits[i]))
        && digits_value(digits) <= usize::MAX {
        Some(digits_value(digits) as usize)
    } else {
        None
    }
}

/// The value of a run of digits grows with every digit appended to it.
proof fn lemma_digits_value_grows(digits: Seq<char>, len: int)
    requires
        0 <= len <= digits.len(),
    ensures
        digits_value(digits.take(len)) <= digits_value(digits),
    decreases digits.len() - len,
{
    if len < digits.len() {
        lemma_digits_value_grows(digits, len + 1);
        assert(digits.take(len + 1).drop_last() =~= digits.take(len));
    } else {
        assert(digits.take(len) =~= digits);
    }
}

/// Reads `text` as an index. Text that is empty, holds anything but digits
/// after an optional `+`, or writes a number that `usize` cannot hold is no
/// index.
pub fn parse_index(text: &Vec<char>) -> (index: Option<usize>)
    ensures
        index == parsed_index(text@),
{
    let first: usize = if text.len() > 0 && text[0] == '+' {
        1
    } else {
        0
    };
    let ghost digits = unsigned_part(text@);
    assert(digits =~= text@.subrange(first as int, text@.len() as int));
    if first == text.len() {
        return None;
    }
    let mut value: usize = 0;
    let mut at: usize = first;
    while at < text.len()
        invariant
            first <= at <= text@.len(),
            digits == text@.subrange(first as int, text@.len() as int),
            digits == unsigned_part(text@),
            forall|i: int| 0 <= i < at - first ==> is_digit(#[trigger] digits[i]),
            value == digits_value(digits.take(at - first)),
        decreases text@.len() - at,
    {
        let c = text[at];
        assert(c == digits[at - first]);
        if !(c >= '0' && c <= '9') {
            assert(!is_digit(digits[at - first]));
            return None;
        }
        let digit = (c as u32 - '0' as u32) as usize;
        proof {
            let longer = digits.take(at - first + 1);
            assert(longer.drop_last() =~= digits.take(at - first));
            assert(longer.last() == c);
            assert(digits_value(longer) == value * 10 + digit);
            lemma_digits_value_grows(digits, at - first + 1);
        }
        let scaled = match value.checked_mul(10) {
            Some(scaled) => scaled,
            None => {
                return None;
            },
        };
        value = match scaled.checked_add(digit) {
            Some(sum) => sum,
            None => {
                return None;
            },
        };
        at += 1;
    }
    assert(digits.take(at - first) =~= digits);
    Some(value)
}

} // verus!
