//! Durations as people write them (`5s`, `2h 37min`), read and written by
//! `humantime`, and as the timer counts them: in milliseconds.
//!
//! A text is handed to `humantime` only if it holds no more than eleven
//! decimal digits; a longer one is refused as no duration. That is room for
//! more than three thousand years in seconds.

use vstd::prelude::*;
use vstd::utf8::encode_utf8;
use crate::outcome::ConfigurationError;

verus! {

/// The length in nanoseconds of the duration that `humantime::parse_duration`
/// reads from `text`, or `None` where it reads none.
pub uninterp spec fn humantime_parse(text: Seq<char>) -> Option<u128>;

/// The text that `humantime::format_duration` writes for a duration of
/// `millis` milliseconds.
pub uninterp spec fn humantime_format(millis: u64) -> Seq<char>;

/// Whether `byte` is the one byte of a decimal digit. In a text no other
/// character holds such a byte.
pub open spec fn is_digit(byte: u8) -> bool {
    48 <= byte <= 57
}

/// How many decimal digits stand in the text with the bytes `bytes`.
pub open spec fn digits(bytes: Seq<u8>) -> nat
    decreases bytes.len(),
{
    if bytes.len() == 0 {
        0
    } else if is_digit(bytes.last()) {
        digits(bytes.drop_last()) + 1
    } else {
        digits(bytes.drop_last())
    }
}

/// The most decimal digits that a text may hold and still be handed to
/// `humantime`. The numbers of such a text add up to less than 10^11 and the
/// longest unit, the year, has 31 557 600 seconds, so the seconds that the
/// parser sums stay below 3.2 * 10^18, far from the end of their range.
pub const MAX_DIGITS: usize = 11;

/// Whether `text` is short enough in digits to be parsed. The digits are
/// counted in the bytes of the text.
pub open spec fn parseable(text: Seq<char>) -> bool {
    digits(encode_utf8(text)) <= MAX_DIGITS
}

/// Calls `humantime::parse_duration`, which reads a duration from a text or
/// refuses the text. A duration comes back as its length in nanoseconds,
/// which `Duration::as_nanos` gives without loss. The parser adds up seconds
/// in 64 bits and stops with a panic where the sum reaches the very end of
/// that range; a text with no more than [`MAX_DIGITS`] digits cannot bring
/// it there.
#[verifier::external_body]
fn parse_duration(text: &str) -> (nanos: Option<u128>)
    requires
        parseable(text@),
    ensures
        nanos == humantime_parse(text@),
{
    match humantime::parse_duration(text) {
        Ok(duration) => Some(duration.as_nanos()),
        Err(_) => None,
    }
}

/// Calls `humantime::format_duration` on the duration of `millis`
/// milliseconds and returns what it displays.
#[verifier::external_body]
pub(crate) fn format_duration(millis: u64) -> (text: String)
    ensures
        text@ == humantime_format(millis),
{
    humantime::format_duration(std::time::Duration::from_millis(millis)).to_string()
}

/// The milliseconds that a duration of `nanos` nanoseconds takes on the
/// timer's clock. A started millisecond counts as a whole one, so that a
/// positive duration stays positive.
pub open spec fn millis_ceil(nanos: u128) -> nat {
    if nanos % 1_000_000 == 0 {
        (nanos / 1_000_000) as nat
    } else {
        (nanos / 1_000_000 + 1) as nat
    }
}

/// The setting that a parsed duration gives: its length in milliseconds, or
/// `InvalidDuration` where nothing was parsed or the length does not fit the
/// clock.
pub open spec fn setting_of(parsed: Option<u128>) -> Result<u64, ConfigurationError> {
    match parsed {
        Some(nanos) if millis_ceil(nanos) <= u64::MAX => Ok(millis_ceil(nanos) as u64),
        _ => Err(ConfigurationError::InvalidDuration),
    }
}

/// Turns what was parsed from a text into a setting of the timer.
pub fn duration_setting(parsed: Option<u128>) -> (res: Result<u64, ConfigurationError>)
    ensures
        res == setting_of(parsed),
{
    match parsed {
        Some(nanos) => {
            let whole: u128 = nanos / 1_000_000;
            let millis: u128 = if nanos % 1_000_000 == 0 {
                whole
            } else {
                whole + 1
            };
            if millis <= u64::MAX as u128 {
                Ok(millis as u64)
            } else {
                Err(ConfigurationError::InvalidDuration)
            }
        },
        None => Err(ConfigurationError::InvalidDuration),
    }
}

/// Whether the text with the bytes `bytes` holds more than `limit` decimal
/// digits.
pub fn exceeds_digits(bytes: &[u8], limit: usize) -> (more: bool)
    ensures
        more == (digits(bytes@) > limit),
{
    let mut count: usize = 0;
    let mut index: usize = 0;
    while index < bytes.len()
        invariant
            index <= bytes.len(),
            count <= limit,
            count == digits(bytes@.take(index as int)),
        decreases bytes.len() - index,
    {
        let byte: u8 = bytes[index];
        proof {
            assert(bytes@.take(index + 1).drop_last() =~= bytes@.take(index as int));
            assert(bytes@.take(index + 1).last() == byte);
        }
        if 48 <= byte && byte <= 57 {
            if count == limit {
                proof {
                    lemma_digits_grow(bytes@, index + 1);
                }
                return true;
            }
            count = count + 1;
        }
        index = index + 1;
    }
    assert(bytes@.take(bytes.len() as int) =~= bytes@);
    false
}

/// A longer stretch of a text holds no fewer digits than a shorter one.
pub proof fn lemma_digits_grow(bytes: Seq<u8>, shorter: int)
    requires
        0 <= shorter <= bytes.len(),
    ensures
        digits(bytes.take(shorter)) <= digits(bytes),
    decreases bytes.len() - shorter,
{
    if shorter < bytes.len() {
        assert(bytes.take(shorter + 1).drop_last() =~= bytes.take(shorter));
        lemma_digits_grow(bytes, shorter + 1);
    } else {
        assert(bytes.take(shorter) =~= bytes);
    }
}

/// The setting that a text gives: what `humantime` reads from it, as a
/// setting, where the text is short enough in digits to be parsed, and
/// `InvalidDuration` where it is not.
pub open spec fn setting_of_text(text: Seq<char>) -> Result<u64, ConfigurationError> {
    if parseable(text) {
        setting_of(humantime_parse(text))
    } else {
        Err(ConfigurationError::InvalidDuration)
    }
}

/// Reads a setting of the timer from a text such as `5s` or `1h 30m`. A text
/// with more than [`MAX_DIGITS`] decimal digits is refused unread.
pub fn parse_timeout(text: &str) -> (res: Result<u64, ConfigurationError>)
    ensures
        res == setting_of_text(text@),
{
    if exceeds_digits(text.as_bytes(), MAX_DIGITS) {
        Err(ConfigurationError::InvalidDuration)
    } else {
        duration_setting(parse_duration(text))
    }
}

} // verus!
