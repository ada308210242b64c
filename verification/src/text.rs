//! Percent-decoding and human-readable sizes.

use byte_unit::Byte;
use std::string::FromUtf8Error;
use vstd::prelude::*;

verus! {

/// `std::string::FromUtf8Error`, carried through without looking inside.
#[verifier::external_type_specification]
#[verifier::external_body]
pub struct ExFromUtf8Error(FromUtf8Error);

/// What `urlencoding::decode` makes of a text: the decoded text, or nothing
/// where the decoded bytes are not UTF-8.
pub uninterp spec fn percent_decoded(text: Seq<char>) -> Option<Seq<char>>;

/// How `byte_unit` writes a number of bytes with a unit and at most ten
/// fractional digits.
pub uninterp spec fn size_text(bytes: u64) -> Seq<char>;

/// Calls `urlencoding::decode`. Its outcome depends on the text alone and is
/// named [`percent_decoded`]. A text without a `%` comes back as it is: the
/// decoder returns its input when it finds no escape to replace.
#[verifier::external_body]
pub(crate) fn decode_percent(text: &str) -> (decoded: Result<String, FromUtf8Error>)
    ensures
        match decoded {
            Ok(plain) => percent_decoded(text@) == Some(plain@),
            Err(_) => percent_decoded(text@) is None,
        },
        !text@.contains('%') ==> decoded is Ok && decoded->Ok_0@ == text@,
{
    match urlencoding::decode(text) {
        Ok(plain) => Ok(plain.into_owned()),
        Err(error) => Err(error),
    }
}

/// Calls `byte_unit::Byte::from_u64` and formats the value with `{:#.10}`:
/// the largest unit, decimal or binary, in which the size is exact within
/// ten fractional digits, then a space and the unit. The text depends on the
/// number alone and is named [`size_text`].
#[verifier::external_body]
pub(crate) fn write_size(bytes: u64) -> (text: String)
    ensures
        text@ == size_text(bytes),
{
    let size = Byte::from_u64(bytes);
    format!("{size:#.10}")
}

} // verus!
