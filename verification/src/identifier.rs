//! Record ids as request paths spell them.

use vstd::prelude::*;
use crate::error::Error;

verus! {

/// Whether `c` is one of the decimal digits `0` to `9`.
pub open spec fn is_digit(c: char) -> bool {
    '0' <= c && c <= '9'
}

/// The number a decimal digit stands for.
pub open spec fn digit_value(c: char) -> nat {
    (c as u32 - '0' as u32) as nat
}

/// Whether `text` consists of decimal digits only.
pub open spec fn all_digits(text: Seq<char>) -> bool {
    forall|i: int| 0 <= i < text.len() ==> is_digit(#[trigger] text[i])
}

/// The number that a sequence of decimal digits denotes, most significant
/// digit first.
pub open spec fn decimal(digits: Seq<char>) -> nat
    decreases digits.len(),
{
    if digits.len() == 0 {
        0
    } else {
        10 * decimal(digits.drop_last()) + digit_value(digits.last())
    }
}

/// `text` without its leading plus sign, if it has one.
pub open spec fn unsigned(text: Seq<char>) -> Seq<char> {
    if text.len() > 0 && text[0] == '+' {
        text.subrange(1, text.len() as int)
    } else {
        text
    }
}

/// The record id that `text` denotes: an optional plus sign followed by one
/// or more decimal digits, whose value fits the machine word. Anything else
/// denotes none.
pub open spec fn identifier(text: Seq<char>) -> Option<usize> {
    let digits = unsigned(text);
    if digits.len() > 0 && all_digits(digits) && decimal(digits) <= usize::MAX {
        Some(decimal(digits) as usize)
    } else {
        None
    }
}

/// A number written in digits is at least the number written by any of
/// its leading digits.
proof fn lemma_decimal_grows(digits: Seq<char>, n: int)
    requires
        all_digits(digits),
        0 <= n <= digits.len(),
    ensures
        decimal(digits.take(n)) <= decimal(digits),
    decreases digits.len(),
{
    if n == digits.len() {
        assert(digits.take(n) =~= digits);
    } else {
        let front = digits.drop_last();
        assert(front.take(n) =~= digits.take(n));
        lemma_decimal_grows(front, n);
    }
}

/// Reads a record id from a path segment.
///
/// The segment is an id if it is written as an optional plus sign followed
/// by one or more decimal digits and its value fits the machine word.
pub fn parse_id(text: &str) -> (id: Result<usize, Error>)
    ensures
        match identifier(text@) {
            Some(n) => id == Ok::<usize, Error>(n),
            None => id == Err::<usize, Error>(Error::InvalidIdentifier),
        },
{
    let mut value: usize = 0;
    let mut first = true;
    let mut signed = false;
    let mut any = false;
    for c in it: text.chars()
        invariant
            it.seq() == text@,
            first == (it.index() == 0),
            signed ==> it.index() >= 1 && text@[0] == '+',
            !signed && !first ==> text@[0] != '+',
            any == (it.index() > if signed { 1int } else { 0int }),
            all_digits(text@.subrange(if signed { 1int } else { 0int }, it.index() as int)),
            value == decimal(text@.subrange(if signed { 1int } else { 0int }, it.index() as int)),
    {
        let ghost start = if signed { 1int } else { 0int };
        let ghost k = it.index() as int;
        if first && c == '+' {
            signed = true;
            assert(text@.subrange(1, 1) =~= Seq::<char>::empty());
        } else if '0' <= c && c <= '9' {
            let digit = (c as u32 - '0' as u32) as usize;
            proof {
                let digits = unsigned(text@);
                let n = k - start;
                assert(digits.take(n) =~= text@.subrange(start, k));
                assert(digits.take(n + 1) =~= text@.subrange(start, k + 1));
                assert(digits.take(n + 1).drop_last() =~= digits.take(n));
                assert(digits.take(n + 1).last() == c);
                assert(decimal(digits.take(n + 1)) == 10 * value + digit);
                if all_digits(digits) {
                    lemma_decimal_grows(digits, n + 1);
                }
            }
            let scaled = match value.checked_mul(10) {
                Some(scaled) => scaled,
                None => {
                    return Err(Error::InvalidIdentifier);
                },
            };
            value = match scaled.checked_add(digit) {
                Some(sum) => sum,
                None => {
                    return Err(Error::InvalidIdentifier);
                },
            };
            any = true;
        } else {
            proof {
                let digits = unsigned(text@);
                assert(digits[k - start] == c);
                assert(!is_digit(c));
            }
            return Err(Error::InvalidIdentifier);
        }
        first = false;
    }
    proof {
        let start = if signed { 1int } else { 0int };
        assert(unsigned(text@) =~= text@.subrange(start, text@.len() as int));
    }
    if any {
        Ok(value)
    } else {
        Err(Error::InvalidIdentifier)
    }
}

} // verus!
