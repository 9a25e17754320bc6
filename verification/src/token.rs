//! The percentage as the mixer prints it: an optional sign, decimal digits
//! and a `%`, all of them ASCII.

use vstd::prelude::*;
use vstd::string::StringExecFns;

use crate::error::MixerError;

verus! {

/// ASCII `%`.
pub const PERCENT: u8 = 37;

/// ASCII `+`.
pub const PLUS: u8 = 43;

/// ASCII `-`.
pub const MINUS: u8 = 45;

/// ASCII `0`.
pub const ZERO: u8 = 48;

/// ASCII `9`.
pub const NINE: u8 = 57;

pub open spec fn is_sign(byte: u8) -> bool {
    byte == PLUS || byte == MINUS
}

pub open spec fn is_digit(byte: u8) -> bool {
    ZERO <= byte <= NINE
}

/// Where the digits of a token begin: behind its sign, if it has one.
pub open spec fn digits_start(token: Seq<u8>) -> int {
    if token.len() > 0 && is_sign(token[0]) {
        1
    } else {
        0
    }
}

/// What stands between a token's sign and its `%`.
pub open spec fn token_digits(token: Seq<u8>) -> Seq<u8> {
    token.subrange(digits_start(token), token.len() - 1)
}

/// A percent token is an optional sign, one digit or more, and a `%`.
pub open spec fn is_percent_token(token: Seq<u8>) -> bool {
    &&& digits_start(token) < token.len() - 1
    &&& forall|i: int| digits_start(token) <= i < token.len() - 1 ==> is_digit(#[trigger] token[i])
    &&& token.last() == PERCENT
}

/// The number that a run of decimal digits spells, leading zeros allowed.
pub open spec fn decimal_value(digits: Seq<u8>) -> nat
    decreases digits.len(),
{
    if digits.len() == 0 {
        0
    } else {
        (decimal_value(digits.drop_last()) * 10 + (digits.last() - ZERO)) as nat
    }
}

/// The number that a percent token spells.
pub open spec fn token_value(token: Seq<u8>) -> int {
    if token[0] == MINUS {
        -(decimal_value(token_digits(token)) as int)
    } else {
        decimal_value(token_digits(token)) as int
    }
}

/// What reading a token gives: its number where that fits, and an error
/// where it does not or where the bytes are no token.
pub open spec fn token_reading(token: Seq<u8>) -> Result<i32, MixerError> {
    if !is_percent_token(token) {
        Err(MixerError::MissingPercent)
    } else if i32::MIN <= token_value(token) <= i32::MAX {
        Ok(token_value(token) as i32)
    } else {
        Err(MixerError::OutOfRange)
    }
}

/// The decimal digits of a number, without leading zeros.
pub open spec fn numeral(number: nat) -> Seq<u8>
    decreases number,
{
    if number < 10 {
        seq![(ZERO + number) as u8]
    } else {
        numeral(number / 10).push((ZERO + number % 10) as u8)
    }
}

/// The token that spells a number: a `-` for a negative one, its digits
/// and a `%`.
pub open spec fn spelled(number: int) -> Seq<u8> {
    if number < 0 {
        seq![MINUS] + numeral((-number) as nat) + seq![PERCENT]
    } else {
        numeral(number as nat) + seq![PERCENT]
    }
}

/// Bytes of ASCII as the text that they encode.
pub open spec fn ascii_text(bytes: Seq<u8>) -> Seq<char> {
    Seq::new(bytes.len(), |i: int| bytes[i] as char)
}

/// The digits of a number are digits, and spell it.
pub proof fn lemma_numeral_spells(number: nat)
    ensures
        numeral(number).len() >= 1,
        forall|i: int| 0 <= i < numeral(number).len() ==> is_digit(#[trigger] numeral(number)[i]),
        decimal_value(numeral(number)) == number,
    decreases number,
{
    let digits = numeral(number);
    if number < 10 {
        assert(decimal_value(digits.drop_last()) == 0);
    } else {
        lemma_numeral_spells(number / 10);
        assert(digits.drop_last() == numeral(number / 10));
    }
}

/// Every number's token is a percent token and spells that number: `N%`
/// reads as N, and `-N%` as -N.
pub proof fn lemma_spelled_reads_back(number: int)
    ensures
        is_percent_token(spelled(number)),
        token_value(spelled(number)) == number,
        i32::MIN <= number <= i32::MAX ==> token_reading(spelled(number)) == Ok::<i32, MixerError>(
            number as i32,
        ),
{
    if number < 0 {
        lemma_numeral_spells((-number) as nat);
        lemma_token_value(numeral((-number) as nat));
    } else {
        lemma_numeral_spells(number as nat);
        lemma_token_value(numeral(number as nat));
    }
}

/// A sign in front of digits and a `%` is a token, and its number is that
/// of the digits: negated behind a `-`, as it stands behind a `+` or alone.
pub proof fn lemma_token_value(digits: Seq<u8>)
    requires
        digits.len() >= 1,
        forall|i: int| 0 <= i < digits.len() ==> is_digit(#[trigger] digits[i]),
    ensures
        is_percent_token(digits + seq![PERCENT]),
        is_percent_token(seq![PLUS] + digits + seq![PERCENT]),
        is_percent_token(seq![MINUS] + digits + seq![PERCENT]),
        token_value(digits + seq![PERCENT]) == decimal_value(digits),
        token_value(seq![PLUS] + digits + seq![PERCENT]) == decimal_value(digits),
        token_value(seq![MINUS] + digits + seq![PERCENT]) == -(decimal_value(digits) as int),
{
    assert(token_digits(digits + seq![PERCENT]) == digits);
    assert(token_digits(seq![PLUS] + digits + seq![PERCENT]) == digits);
    assert(token_digits(seq![MINUS] + digits + seq![PERCENT]) == digits);
}

/// One more than the largest magnitude that a volume can have; digits are
/// summed up to here and no further.
const CEILING: i64 = 0x8000_0001;

spec fn capped(value: nat) -> int {
    if value < CEILING {
        value as int
    } else {
        CEILING as int
    }
}

/// Reads a percent token: `b"50%"` is 50, `b"-5%"` is -5, `b"+07%"` is 7.
pub fn parse_percent(token: &[u8]) -> (reading: Result<i32, MixerError>)
    ensures
        reading == token_reading(token@),
{
    let len: usize = token.len();
    if len < 2 || token[len - 1] != PERCENT {
        return Err(MixerError::MissingPercent);
    }
    let negative: bool = token[0] == MINUS;
    let first: usize = if token[0] == PLUS || token[0] == MINUS {
        1
    } else {
        0
    };
    if first >= len - 1 {
        return Err(MixerError::MissingPercent);
    }
    let mut magnitude: i64 = 0;
    let mut next: usize = first;
    while next < len - 1
        invariant
            len == token@.len(),
            first == digits_start(token@),
            first <= next <= len - 1,
            forall|i: int| first <= i < next ==> is_digit(#[trigger] token@[i]),
            magnitude == capped(decimal_value(token@.subrange(first as int, next as int))),
        decreases len - next,
    {
        let byte: u8 = token[next];
        if byte < ZERO || byte > NINE {
            return Err(MixerError::MissingPercent);
        }
        assert(token@.subrange(first as int, next + 1).drop_last() == token@.subrange(
            first as int,
            next as int,
        ));
        if magnitude < CEILING {
            magnitude = magnitude * 10 + (byte - ZERO) as i64;
            if magnitude > CEILING {
                magnitude = CEILING;
            }
        }
        next = next + 1;
    }
    assert(token@.subrange(first as int, next as int) == token_digits(token@));
    if negative {
        if magnitude <= 0x8000_0000 {
            Ok((-magnitude) as i32)
        } else {
            Err(MixerError::OutOfRange)
        }
    } else {
        if magnitude <= 0x7fff_ffff {
            Ok(magnitude as i32)
        } else {
            Err(MixerError::OutOfRange)
        }
    }
}

/// One decimal digit as text.
fn digit_text(digit: u64) -> (text: &'static str)
    requires
        digit < 10,
    ensures
        text@ == ascii_text(seq![(ZERO + digit) as u8]),
{
    proof {
        reveal_strlit("0");
        reveal_strlit("1");
        reveal_strlit("2");
        reveal_strlit("3");
        reveal_strlit("4");
        reveal_strlit("5");
        reveal_strlit("6");
        reveal_strlit("7");
        reveal_strlit("8");
        reveal_strlit("9");
    }
    match digit {
        0 => "0",
        1 => "1",
        2 => "2",
        3 => "3",
        4 => "4",
        5 => "5",
        6 => "6",
        7 => "7",
        8 => "8",
        _ => "9",
    }
}

/// Appends the digits of a number to a text.
fn push_numeral(text: &mut String, number: u64)
    ensures
        final(text)@ == old(text)@ + ascii_text(numeral(number as nat)),
    decreases number,
{
    if number >= 10 {
        push_numeral(text, number / 10);
    }
    text.append(digit_text(number % 10));
}

/// Writes a number as a percent token: 60 as `60%`, -5 as `-5%`.
pub fn percent_text(number: i64) -> (text: String)
    ensures
        text@ == ascii_text(spelled(number as int)),
{
    let mut text = String::new();
    let magnitude: u64 = if number < 0 {
        proof {
            reveal_strlit("-");
        }
        text.append("-");
        if number == i64::MIN {
            0x8000_0000_0000_0000
        } else {
            (-number) as u64
        }
    } else {
        number as u64
    };
    push_numeral(&mut text, magnitude);
    proof {
        reveal_strlit("%");
    }
    text.append("%");
    text
}

} // verus!
