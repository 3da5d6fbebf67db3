//! Identifiers of records: 128-bit values that are written as hyphenated
//! lower-case hexadecimal text.

use crate::text::digit_char;
use vstd::prelude::*;

verus! {

/// The identifier of a video, a user or a benchmark run.
#[derive(Clone, Copy, PartialEq, Eq, Structural, Debug, Hash)]
pub struct RecordId {
    pub value: u128,
}

/// The lower-case hexadecimal digit for `n` in `0..=15`.
pub open spec fn hex_digit(n: int) -> char {
    if n < 10 {
        digit_char(n)
    } else if n == 10 {
        'a'
    } else if n == 11 {
        'b'
    } else if n == 12 {
        'c'
    } else if n == 13 {
        'd'
    } else if n == 14 {
        'e'
    } else {
        'f'
    }
}

/// The last `count` hexadecimal digits of `value`, most significant first.
pub open spec fn hex_digits(value: nat, count: nat) -> Seq<char>
    decreases count,
{
    if count == 0 {
        Seq::empty()
    } else {
        hex_digits(value / 16, (count - 1) as nat).push(hex_digit((value % 16) as int))
    }
}

/// The 36 characters of the hyphenated form: the 32 hexadecimal digits of
/// `value` in groups of 8, 4, 4, 4 and 12, with a hyphen between groups.
pub open spec fn hyphenated_text(value: u128) -> Seq<char> {
    let digits = hex_digits(value as nat, 32);
    digits.subrange(0, 8) + seq!['-'] + digits.subrange(8, 12) + seq!['-'] + digits.subrange(
        12,
        16,
    ) + seq!['-'] + digits.subrange(16, 20) + seq!['-'] + digits.subrange(20, 32)
}

/// The identifier that a text denotes in any of the written forms of a
/// UUID, where it denotes one.
pub uninterp spec fn parsed_uuid(text: Seq<char>) -> Option<u128>;

/// Calls `uuid::Uuid::from_u128` and formats the result with its `Display`
/// impl: the hyphenated form in lower case, read off the value from its most
/// significant digit.
#[verifier::external_body]
fn format_uuid(value: u128) -> (text: String)
    ensures
        text@ == hyphenated_text(value),
{
    uuid::Uuid::from_u128(value).to_string()
}

/// Calls `uuid::Uuid::parse_str` and, where it accepts the text, hands back
/// the value of the result as `uuid::Uuid::as_u128` gives it: the result is
/// a function of the text alone.
#[verifier::external_body]
fn parse_uuid(text: &str) -> (value: Option<u128>)
    ensures
        value == parsed_uuid(text@),
{
    match uuid::Uuid::parse_str(text) {
        Ok(id) => Some(id.as_u128()),
        Err(_) => None,
    }
}

impl RecordId {
    /// The identifier with the given value.
    pub fn new(value: u128) -> (id: RecordId)
        ensures
            id.value == value,
    {
        RecordId { value }
    }

    /// The text of this identifier.
    pub open spec fn text(self) -> Seq<char> {
        hyphenated_text(self.value)
    }

    /// The hyphenated form of this identifier.
    pub fn to_string(&self) -> (text: String)
        ensures
            text@ == self.text(),
    {
        format_uuid(self.value)
    }

    /// Reads an identifier from text.
    pub fn parse_str(text: &str) -> (id: Option<RecordId>)
        ensures
            id == Self::from_parsed(parsed_uuid(text@)),
    {
        Self::from_parsed_value(parse_uuid(text))
    }

    /// The identifier for a parsed value.
    pub open spec fn from_parsed(value: Option<u128>) -> Option<RecordId> {
        match value {
            Some(v) => Some(RecordId { value: v }),
            None => None,
        }
    }

    /// The identifier for a parsed value, if the text denoted one.
    pub fn from_parsed_value(value: Option<u128>) -> (id: Option<RecordId>)
        ensures
            id == Self::from_parsed(value),
    {
        match value {
            Some(v) => Some(RecordId { value: v }),
            None => None,
        }
    }
}

} // verus!
