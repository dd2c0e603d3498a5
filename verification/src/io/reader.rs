//! The decisions taken on what the user types in at a prompt.
use vstd::prelude::*;
use crate::number::{parse_i32, spec_parse_i32, spec_format_i32, lemma_format_parse_roundtrip};

verus! {

/// What a number typed in at a prompt that asks for one in a range turns out to be.
#[derive(Clone, Copy, Debug, PartialEq, Eq, Structural)]
pub enum NumberInput {
    /// A number in the range: the answer.
    Accepted(i32),
    /// A number outside the range: asked again.
    OutOfRange(i32),
    /// Not a number: asked again.
    NotANumber,
}

/// The answer to a yes/no menu: 1 for yes, 2 for no, anything else asked again.
pub fn boolean_choice(choice: i32) -> (r: Option<bool>)
    ensures
        r == (if choice == 1 {
            Some(true)
        } else if choice == 2 {
            Some(false)
        } else {
            None
        }),
{
    if choice == 1 {
        Some(true)
    } else if choice == 2 {
        Some(false)
    } else {
        None
    }
}

/// What a number typed in as `input` is, for a prompt that asks for one in `start..=end`.
pub open spec fn number_verdict(input: Seq<char>, start: i32, end: i32) -> NumberInput {
    match spec_parse_i32(input) {
        Some(n) => if start <= n && n <= end {
            NumberInput::Accepted(n)
        } else {
            NumberInput::OutOfRange(n)
        },
        None => NumberInput::NotANumber,
    }
}

/// Reads `input` as a number that must lie in `start..=end`.
pub fn judge_number(input: &str, start: i32, end: i32) -> (r: NumberInput)
    ensures
        r == number_verdict(input@, start, end),
{
    match parse_i32(input) {
        Some(n) => if n >= start && n <= end {
            NumberInput::Accepted(n)
        } else {
            NumberInput::OutOfRange(n)
        },
        None => NumberInput::NotANumber,
    }
}

/// Every number written out in decimal is accepted exactly when it lies in
/// `start..=end`, both ends included, and is otherwise refused as out of range.
pub proof fn lemma_typed_number_verdict(n: i32, start: i32, end: i32)
    ensures
        number_verdict(spec_format_i32(n), start, end) == (if start <= n && n <= end {
            NumberInput::Accepted(n)
        } else {
            NumberInput::OutOfRange(n)
        }),
        number_verdict(spec_format_i32(start), start, end) == (if start <= end {
            NumberInput::Accepted(start)
        } else {
            NumberInput::OutOfRange(start)
        }),
        number_verdict(spec_format_i32(end), start, end) == (if start <= end {
            NumberInput::Accepted(end)
        } else {
            NumberInput::OutOfRange(end)
        }),
{
    lemma_format_parse_roundtrip(n);
    lemma_format_parse_roundtrip(start);
    lemma_format_parse_roundtrip(end);
}

} // verus!
