//! Reading a number from its digits.

use vstd::prelude::*;

verus! {

/// The value of a digit, for the characters `0` to `9`.
pub open spec fn digit_value(c: char) -> Option<nat> {
    if '0' <= c <= '9' {
        Some((c as nat - '0' as nat) as nat)
    } else {
        None
    }
}

/// The number that a run of the digits `0` to `9` writes in base ten; the
/// empty run writes zero. There is none where another character occurs.
pub open spec fn digits_value(digits: Seq<char>) -> Option<nat>
    decreases digits.len(),
{
    if digits.len() == 0 {
        Some(0)
    } else {
        match (digits_value(digits.drop_last()), digit_value(digits.last())) {
            (Some(before), Some(last)) => Some(before * 10 + last),
            _ => None,
        }
    }
}

/// The number written by a text, where the text is a run of one or more of
/// the digits `0` to `9` and the number is at most `u64::MAX`.
pub open spec fn decimal_of(text: Seq<char>) -> Option<u64> {
    match digits_value(text) {
        Some(value) => if text.len() > 0 && value <= u64::MAX {
            Some(value as u64)
        } else {
            None
        },
        None => None,
    }
}

/// A run that begins with something that writes no number writes none, and
/// a run of digits writes no less than any run that it begins with.
pub proof fn lemma_digits_value_grows(digits: Seq<char>, upto: int)
    requires
        0 <= upto <= digits.len(),
    ensures
        digits_value(digits.take(upto)) is None ==> digits_value(digits) is None,
        digits_value(digits) matches Some(value) ==> digits_value(digits.take(upto))->0 <= value,
    decreases digits.len() - upto,
{
    if upto == digits.len() {
        assert(digits.take(upto) =~= digits);
    } else {
        lemma_digits_value_grows(digits.drop_last(), upto);
        assert(digits.drop_last().take(upto) =~= digits.take(upto));
    }
}

/// Reads a number from its digits.
pub fn parse_decimal(text: &str) -> (result: Option<u64>)
    ensures
        result == decimal_of(text@),
{
    if text.is_empty() {
        return None;
    }
    let mut value: u64 = 0;
    for c in it: text.chars()
        invariant
            it.seq() == text@,
            text@.len() > 0,
            digits_value(text@.take(it.index())) == Some(value as nat),
    {
        let ghost index = it.index();
        proof {
            assert(text@.take(index + 1).drop_last() =~= text@.take(index));
            lemma_digits_value_grows(text@, index + 1);
        }
        if c < '0' || c > '9' {
            return None;
        }
        let digit = (c as u64) - ('0' as u64);
        let tenfold = match value.checked_mul(10) {
            Some(tenfold) => tenfold,
            None => return None,
        };
        value = match tenfold.checked_add(digit) {
            Some(sum) => sum,
            None => return None,
        };
    }
    proof {
        assert(text@.take(text@.len() as int) =~= text@);
    }
    Some(value)
}

} // verus!
