//! Reading what the mixer prints: the volume from its answer to a volume
//! query, and the state of the mute switch from its answer to a mute query.

use vstd::prelude::*;
use vstd::string::StringSliceAdditionalSpecFns;
use vstd::utf8::{encode_utf8, encode_utf8_valid_utf8, is_ascii_chars_encode_utf8, valid_utf8};

use crate::error::MixerError;
use crate::token::{
    ascii_text, digits_start, is_digit, is_percent_token, is_sign, lemma_spelled_reads_back,
    parse_percent, spelled, token_reading, PERCENT,
};

verus! {

/// The percent token as a regular expression.
pub const PERCENT_PATTERN: &'static str = "[+-]?[0-9]+%";

/// ASCII `n`.
pub const LOWER_N: u8 = 110;

/// ASCII `o`.
pub const LOWER_O: u8 = 111;

/// A percent token stands in `text` from `start` up to `end`.
pub open spec fn token_at(text: Seq<u8>, start: int, end: int) -> bool {
    0 <= start < end <= text.len() && is_percent_token(text.subrange(start, end))
}

/// A percent token stands somewhere in `text`.
pub open spec fn has_token(text: Seq<u8>) -> bool {
    exists|start: int, end: int| token_at(text, start, end)
}

/// The token from `start` up to `end` is the one that begins first in `text`.
pub open spec fn is_first_token(text: Seq<u8>, start: int, end: int) -> bool {
    &&& token_at(text, start, end)
    &&& forall|i: int, j: int| 0 <= i < start ==> !token_at(text, i, j)
}

/// Where the first token of `text` begins and ends.
pub open spec fn first_token(text: Seq<u8>) -> (int, int) {
    choose|start: int, end: int| is_first_token(text, start, end)
}

/// The volume that the mixer's answer to a volume query holds: the number of
/// its first percent token.
pub open spec fn volume_reading(output: Seq<u8>) -> Result<i32, MixerError> {
    if !valid_utf8(output) {
        Err(MixerError::InvalidText)
    } else if !has_token(output) {
        Err(MixerError::MissingPercent)
    } else {
        token_reading(output.subrange(first_token(output).0, first_token(output).1))
    }
}

/// The letters `no` stand in `text` at `at`.
pub open spec fn no_at(text: Seq<u8>, at: int) -> bool {
    0 <= at && at + 1 < text.len() && text[at] == LOWER_N && text[at + 1] == LOWER_O
}

/// The letters `no` stand somewhere in `text`.
pub open spec fn says_no(text: Seq<u8>) -> bool {
    exists|at: int| no_at(text, at)
}

/// What the mixer's answer to a mute query tells: `true` for a sink that is
/// not muted, which the mixer reports with the word `no`.
pub open spec fn unmuted_reading(output: Seq<u8>) -> Result<bool, MixerError> {
    if !valid_utf8(output) {
        Err(MixerError::InvalidText)
    } else {
        Ok(says_no(output))
    }
}

/// A token that begins at a given place ends at one place only, so a text
/// has one first token at most.
pub proof fn lemma_first_token_unique(text: Seq<u8>, start: int, end: int)
    requires
        is_first_token(text, start, end),
    ensures
        has_token(text),
        first_token(text) == (start, end),
{
    // Neither token begins before the other, and the `%` of the shorter
    // one cannot stand among the digits of the longer one.
    let (s, e) = first_token(text);
    assert(s == start);
    assert(e == end);
}

/// The volume that is read is the number of the first percent token,
/// whatever stands before and behind it.
pub proof fn lemma_volume_is_first_token(output: Seq<u8>, start: int, end: int)
    requires
        valid_utf8(output),
        is_first_token(output, start, end),
    ensures
        volume_reading(output) == token_reading(output.subrange(start, end)),
{
    lemma_first_token_unique(output, start, end);
}

/// A token is the first of a text, and so its volume, where nothing before
/// it could begin a token: where the text before it holds no `%` and, for a
/// token without a sign, does not end in a digit or a sign, which the token
/// would belong to.
pub proof fn lemma_token_behind_text(before: Seq<u8>, token: Seq<u8>, after: Seq<u8>)
    requires
        is_percent_token(token),
        forall|i: int| 0 <= i < before.len() ==> #[trigger] before[i] != PERCENT,
        before.len() == 0 || is_sign(token[0]) || !(is_digit(before.last()) || is_sign(
            before.last(),
        )),
    ensures
        is_first_token(
            before + token + after,
            before.len() as int,
            (before.len() + token.len()) as int,
        ),
        valid_utf8(before + token + after) ==> volume_reading(before + token + after)
            == token_reading(token),
{
    let text = before + token + after;
    let start = before.len() as int;
    let end = start + token.len();
    assert(text.subrange(start, end) == token);
    assert forall|i: int, j: int| 0 <= i < start implies !token_at(text, i, j) by {
        if token_at(text, i, j) {
            // The first `%` of the text is the token's own, so a token from
            // `i` ends where this one does, and takes the end of `before`
            // and the beginning of this one for its digits.
            let other = text.subrange(i, j);
            if j > end {
                assert(other[end - 1 - i] == token.last());
            }
            assert(other[start - i] == token[0]);
            assert(other[start - 1 - i] == before.last());
        }
    }
    lemma_first_token_unique(text, start, end);
}

/// Bytes of ASCII are UTF-8, and encode the text that they spell.
pub proof fn lemma_ascii_is_text(bytes: Seq<u8>)
    requires
        forall|i: int| 0 <= i < bytes.len() ==> #[trigger] bytes[i] < 128,
    ensures
        valid_utf8(bytes),
        encode_utf8(ascii_text(bytes)) == bytes,
{
    let text = ascii_text(bytes);
    is_ascii_chars_encode_utf8(text);
    assert(encode_utf8(text) =~= bytes);
    encode_utf8_valid_utf8(text);
}

/// What is written is read back: the text that spells a volume, taken as
/// the mixer's answer, reads as that volume.
pub proof fn lemma_spelled_volume_reads_back(volume: i32)
    ensures
        encode_utf8(ascii_text(spelled(volume as int))) == spelled(volume as int),
        volume_reading(spelled(volume as int)) == Ok::<i32, MixerError>(volume),
{
    let token = spelled(volume as int);
    lemma_spelled_reads_back(volume as int);
    assert forall|i: int| 0 <= i < token.len() implies #[trigger] token[i] < 128 by {
        if digits_start(token) <= i < token.len() - 1 {
            assert(is_digit(token[i]));
        }
    }
    lemma_ascii_is_text(token);
    assert(token.subrange(0, token.len() as int) == token);
    lemma_first_token_unique(token, 0, token.len() as int);
}

/// Takes bytes as text, with `core::str::from_utf8`.
///
/// Taken on trust from its documentation: it accepts the byte sequences
/// that are well-formed UTF-8 and no others, and the text that it returns
/// consists of the very bytes that it was given.
#[verifier::external_body]
fn decode(bytes: &[u8]) -> (text: Option<&str>)
    ensures
        text is Some <==> valid_utf8(bytes@),
        text matches Some(t) ==> t.spec_bytes() == bytes@,
{
    match core::str::from_utf8(bytes) {
        Ok(text) => Some(text),
        Err(_) => None,
    }
}

/// Searches `text` for a percent token with the `regex` crate: compiles the
/// pattern with `regex::Regex::new` and searches with `regex::Regex::find`.
///
/// Taken on trust from the crate's documentation: `find` reports the match
/// that begins first in the text, by the byte offsets at which it starts
/// and ends (`regex::Match::start`, `regex::Match::end`), and reports
/// nothing where the pattern matches nowhere. In the pattern, `[+-]?` takes
/// a sign where one stands, `[0-9]+` takes one ASCII digit or more, as many
/// as follow one another, and `%` takes that character: what it matches is
/// a percent token, and every percent token is matched. The pattern is
/// well-formed, so compiling it does not fail.
#[verifier::external_body]
fn find_first(pattern: &str, text: &str) -> (found: Option<(usize, usize)>)
    requires
        pattern@ == PERCENT_PATTERN@,
    ensures
        found matches Some((start, end)) ==> is_first_token(
            text.spec_bytes(),
            start as int,
            end as int,
        ),
        found is None ==> !has_token(text.spec_bytes()),
{
    match regex::Regex::new(pattern).unwrap().find(text) {
        Some(found) => Some((found.start(), found.end())),
        None => None,
    }
}

/// Reads the sink's volume from the mixer's answer to a volume query.
///
/// The answer has to be UTF-8 text. Its first percent token is the volume;
/// what follows it is not looked at.
pub fn get_volume(output: &[u8]) -> (reading: Result<i32, MixerError>)
    ensures
        reading == volume_reading(output@),
{
    let text: &str = match decode(output) {
        Some(text) => text,
        None => {
            return Err(MixerError::InvalidText);
        },
    };
    match find_first(PERCENT_PATTERN, text) {
        Some((start, end)) => {
            proof {
                lemma_first_token_unique(output@, start as int, end as int);
            }
            parse_percent(vstd::slice::slice_subrange(output, start, end))
        },
        None => Err(MixerError::MissingPercent),
    }
}

/// Tells from the mixer's answer to a mute query whether the sink is unmuted.
///
/// The answer has to be UTF-8 text. The sink counts as unmuted where the
/// answer holds `no`, and as muted on any other answer.
pub fn is_unmuted(output: &[u8]) -> (reading: Result<bool, MixerError>)
    ensures
        reading == unmuted_reading(output@),
{
    if decode(output).is_none() {
        return Err(MixerError::InvalidText);
    }
    let len: usize = output.len();
    if len < 2 {
        return Ok(false);
    }
    let mut at: usize = 0;
    while at < len - 1
        invariant
            valid_utf8(output@),
            2 <= len == output@.len(),
            at <= len - 1,
            forall|i: int| 0 <= i < at ==> !no_at(output@, i),
        decreases len - at,
    {
        if output[at] == LOWER_N && output[at + 1] == LOWER_O {
            assert(no_at(output@, at as int));
            return Ok(true);
        }
        at = at + 1;
    }
    Ok(false)
}

} // verus!
