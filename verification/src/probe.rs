//! Reading what the idle-time probe printed.

use vstd::prelude::*;
use vstd::string::{StrSliceExecFns, StringExecFns};
use crate::decimal::{all_digits, decimal_value, is_digit};

verus! {

/// Why the output of the probe is not a reading.
#[derive(Clone, Copy, Debug, PartialEq, Eq, Structural)]
pub enum ProbeError {
    /// The probe printed nothing.
    Empty,
    /// The output holds something other than a number: a character that is no
    /// ASCII digit, or a sign with no digit after it.
    InvalidDigit,
    /// The output is a number too large for the reading.
    TooLarge,
}

/// The part of `text` that has to be digits: all of it but one leading `+`.
pub open spec fn unsigned_part(text: Seq<char>) -> Seq<char> {
    if text.len() > 0 && text[0] == '+' {
        text.subrange(1, text.len() as int)
    } else {
        text
    }
}

/// The place of the first character, from the left, at which `digits` stops
/// being a reading: a character that is no ASCII digit, or a digit with which
/// the value read so far outgrows 32 bits. `None` where there is no such place.
pub open spec fn first_fault(digits: Seq<char>) -> Option<int>
    decreases digits.len(),
{
    if digits.len() == 0 {
        None
    } else {
        match first_fault(digits.drop_last()) {
            Some(place) => Some(place),
            None => if !is_digit(digits.last()) || decimal_value(digits) > u32::MAX {
                Some(digits.len() - 1)
            } else {
                None
            },
        }
    }
}

/// The reading that `text` denotes: an optional `+` and then one or more
/// ASCII digits whose decimal value fits 32 bits. Where it denotes none, the
/// error is that of the first fault from the left.
pub open spec fn reading_of(text: Seq<char>) -> Result<u32, ProbeError> {
    let digits = unsigned_part(text);
    if text.len() == 0 {
        Err(ProbeError::Empty)
    } else if digits.len() == 0 {
        Err(ProbeError::InvalidDigit)
    } else {
        match first_fault(digits) {
            None => Ok(decimal_value(digits) as u32),
            Some(place) => if is_digit(digits[place]) {
                Err(ProbeError::TooLarge)
            } else {
                Err(ProbeError::InvalidDigit)
            },
        }
    }
}

/// `text` without one line feed at its end, if it has one there.
pub open spec fn without_trailing_newline(text: Seq<char>) -> Seq<char> {
    if text.len() > 0 && text.last() == '\n' {
        text.drop_last()
    } else {
        text
    }
}

/// Digits are without fault exactly when all of them are ASCII digits and
/// their decimal value fits 32 bits.
proof fn lemma_faultless_digits(digits: Seq<char>)
    ensures
        first_fault(digits) is None <==> all_digits(digits) && decimal_value(digits) <= u32::MAX,
    decreases digits.len(),
{
    if digits.len() > 0 {
        let front = digits.drop_last();
        lemma_faultless_digits(front);
        if all_digits(digits) {
            assert forall|i: int| 0 <= i < front.len() implies is_digit(#[trigger] front[i]) by {
                assert(front[i] == digits[i]);
            }
        }
        if all_digits(front) && is_digit(digits.last()) {
            assert forall|i: int| 0 <= i < digits.len() implies is_digit(#[trigger] digits[i]) by {
                if i < front.len() {
                    assert(digits[i] == front[i]);
                }
            }
        }
    }
}

/// A text is read as a number exactly when it is an optional `+` followed by
/// one or more ASCII digits whose decimal value fits 32 bits, and the reading
/// is that value.
pub proof fn law_reading_succeeds(text: Seq<char>)
    ensures
        reading_of(text) is Ok <==> unsigned_part(text).len() > 0 && all_digits(
            unsigned_part(text),
        ) && decimal_value(unsigned_part(text)) <= u32::MAX,
        reading_of(text) matches Ok(seconds) ==> seconds == decimal_value(unsigned_part(text)),
{
    lemma_faultless_digits(unsigned_part(text));
}

/// A fault among the first `length` characters is the first fault of the
/// whole sequence.
proof fn lemma_fault_persists(digits: Seq<char>, length: int)
    requires
        0 <= length <= digits.len(),
        first_fault(digits.take(length)) is Some,
    ensures
        first_fault(digits) == first_fault(digits.take(length)),
    decreases digits.len() - length,
{
    if length == digits.len() {
        assert(digits.take(length) =~= digits);
    } else {
        assert(digits.drop_last().take(length) =~= digits.take(length));
        lemma_fault_persists(digits.drop_last(), length);
    }
}

impl ProbeError {
    /// The wording of the error.
    pub open spec fn message_text(self) -> Seq<char> {
        match self {
            ProbeError::Empty => "cannot parse integer from empty string"@,
            ProbeError::InvalidDigit => "invalid digit found in string"@,
            ProbeError::TooLarge => "number too large to fit in target type"@,
        }
    }

    /// The error in words.
    pub fn message(&self) -> (text: String)
        ensures
            text@ == self.message_text(),
    {
        match self {
            ProbeError::Empty => String::from_str("cannot parse integer from empty string"),
            ProbeError::InvalidDigit => String::from_str("invalid digit found in string"),
            ProbeError::TooLarge => String::from_str("number too large to fit in target type"),
        }
    }
}

/// Removes the line feed that a command prints after its output.
pub fn strip_trailing_newline(text: &str) -> (line: &str)
    ensures
        line@ == without_trailing_newline(text@),
{
    let length = text.unicode_len();
    if length > 0 && text.get_char(length - 1) == '\n' {
        text.substring_char(0, length - 1)
    } else {
        text
    }
}

/// Reads the number of idle seconds from what the probe printed.
pub fn check_idle_time(text: &str) -> (reading: Result<u32, ProbeError>)
    ensures
        reading == reading_of(text@),
{
    if text.is_empty() {
        return Err(ProbeError::Empty);
    }
    let ghost start: int = if text@[0] == '+' {
        1
    } else {
        0
    };
    let ghost digits = unsigned_part(text@);
    assert(digits =~= text@.subrange(start, text@.len() as int));
    let mut value: u32 = 0;
    let mut any_digit = false;
    let mut at_first = true;
    for c in chars: text.chars()
        invariant
            chars.seq() == text@,
            text@.len() > 0,
            digits == text@.subrange(start, text@.len() as int),
            digits == unsigned_part(text@),
            start == if text@[0] == '+' {
                1int
            } else {
                0int
            },
            at_first <==> chars.index() == 0,
            any_digit <==> chars.index() > start,
            chars.index() >= start ==> first_fault(digits.take(chars.index() - start)) is None,
            chars.index() >= start ==> value == decimal_value(digits.take(chars.index() - start)),
            chars.index() < start ==> value == 0,
    {
        let ghost read = chars.index() - start;
        if at_first && c == '+' {
            assert(digits.take(0) =~= Seq::<char>::empty());
        } else {
            proof {
                assert(0 <= read < digits.len());
                assert(c == digits[read]);
                assert(digits.take(read + 1).drop_last() =~= digits.take(read));
                assert(digits.take(read + 1).last() == c);
                if chars.index() == 0 {
                    assert(digits.take(0) =~= Seq::<char>::empty());
                }
            }
            if c < '0' || c > '9' {
                proof {
                    lemma_fault_persists(digits, read + 1);
                }
                return Err(ProbeError::InvalidDigit);
            }
            let digit = c as u32 - '0' as u32;
            let grown = match value.checked_mul(10) {
                Some(tens) => tens.checked_add(digit),
                None => None,
            };
            match grown {
                Some(sum) => {
                    value = sum;
                },
                None => {
                    proof {
                        lemma_fault_persists(digits, read + 1);
                    }
                    return Err(ProbeError::TooLarge);
                },
            }
            any_digit = true;
        }
        at_first = false;
    }
    assert(digits.take(digits.len() as int) =~= digits);
    if any_digit {
        Ok(value)
    } else {
        Err(ProbeError::InvalidDigit)
    }
}

} // verus!
