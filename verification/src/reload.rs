//! The capability interface for types that can be decoded from a watched
//! file's text.
//!
//! A type implements [`Reloadable`] by supplying its decoder.  The decoder
//! is an external collaborator — a pure function from text to
//! `Result<T, ParseError>` — so the watch-and-refresh contracts speak of
//! its possible results, written [`parses_to`], rather than of any fixed
//! decoding algorithm.

use vstd::prelude::*;
use crate::error::ParseError;
use crate::format::FileFormat;

verus! {

/// A value that can be (re)loaded from the text of a configuration file.
pub trait Reloadable: Sized {
    /// Decode a value of this type from `text` under `format`.
    fn parse_text(format: FileFormat, text: &str) -> Result<Self, ParseError>;

    /// Replace `self` with the value decoded from `data`, read as JSON; on
    /// a decode failure `self` is left unchanged.
    fn reload_from_str(&mut self, data: &str) -> (r: Result<(), ParseError>)
        ensures
            r is Ok ==> call_ensures(
                Self::parse_text,
                (FileFormat::Json, data),
                Ok(*final(self)),
            ),
            r is Err ==> *final(self) == *old(self),
    {
        let parsed = Self::parse_text(FileFormat::Json, data);
        match parsed {
            Ok(v) => {
                *self = v;
                Ok(())
            },
            Err(e) => Err(e),
        }
    }
}

/// Whether `v` is a value that `T`'s decoder can return for `text` under
/// `format`.
pub open spec fn parses_to<T: Reloadable>(format: FileFormat, text: Seq<char>, v: T) -> bool {
    exists|s: &str| s@ == text && call_ensures(T::parse_text, (format, s), Ok(v))
}

/// Whether `T`'s decoder can reject `text` under `format`.
pub open spec fn parse_fails<T: Reloadable>(format: FileFormat, text: Seq<char>) -> bool {
    exists|s: &str, e: ParseError| s@ == text && call_ensures(T::parse_text, (format, s), Err(e))
}

/// True when `c` is an ASCII decimal digit.
pub open spec fn is_digit_char(c: char) -> bool {
    48 <= c as u32 <= 57
}

/// The numeric value of the digit `c`.
pub open spec fn digit_val(c: char) -> nat {
    (c as u32 - 48) as nat
}

/// Whether every character of `text` is a decimal digit.
pub open spec fn all_digits(text: Seq<char>) -> bool {
    forall|i: int| 0 <= i < text.len() ==> is_digit_char(#[trigger] text[i])
}

/// The number denoted by the digit string `text`, most significant digit
/// first.
pub open spec fn digits_val(text: Seq<char>) -> nat
    decreases text.len(),
{
    if text.len() == 0 {
        0
    } else {
        digits_val(text.drop_last()) * 10 + digit_val(text.last())
    }
}

/// What [`parse_u64_text`] returns: the denoted number exactly when the
/// text is a plain decimal numeral that fits in 64 bits.
pub open spec fn u64_parse_spec(text: Seq<char>) -> Option<u64> {
    if text.len() > 0 && all_digits(text) && digits_val(text) <= u64::MAX {
        Some(digits_val(text) as u64)
    } else {
        None
    }
}

/// Extending a digit string by one digit multiplies its value by ten and
/// adds the new digit.
proof fn lemma_digits_val_step(text: Seq<char>, i: int)
    requires
        0 <= i < text.len(),
    ensures
        digits_val(text.subrange(0, i + 1)) == digits_val(text.subrange(0, i)) * 10 + digit_val(
            text[i],
        ),
{
    assert(text.subrange(0, i + 1).drop_last() =~= text.subrange(0, i));
    assert(text.subrange(0, i + 1).last() == text[i]);
}

/// A digit string is worth at least as much as any of its prefixes.
proof fn lemma_digits_val_prefix_le(text: Seq<char>, i: int)
    requires
        0 <= i <= text.len(),
    ensures
        digits_val(text.subrange(0, i)) <= digits_val(text),
    decreases text.len() - i,
{
    if i == text.len() {
        assert(text.subrange(0, i) =~= text);
    } else {
        lemma_digits_val_step(text, i);
        lemma_digits_val_prefix_le(text, i + 1);
    }
}

/// Decode a bare decimal numeral, rejecting anything else and anything
/// that does not fit in 64 bits.
pub fn parse_u64_text(text: &str) -> (r: Result<u64, ParseError>)
    ensures
        r matches Ok(v) ==> u64_parse_spec(text@) == Some(v),
        r is Err ==> u64_parse_spec(text@) is None,
{
    let len = text.unicode_len();
    if len == 0 {
        return Err(ParseError { message: "empty input".to_owned() });
    }
    let mut i: usize = 0;
    let mut acc: u64 = 0;
    while i < len
        invariant
            0 <= i <= len,
            len == text@.len(),
            forall|j: int| 0 <= j < i ==> is_digit_char(#[trigger] text@[j]),
            acc == digits_val(text@.subrange(0, i as int)),
        decreases len - i,
    {
        let c = text.get_char(i);
        let cu = c as u32;
        if !(48 <= cu && cu <= 57) {
            assert(!is_digit_char(text@[i as int]));
            return Err(ParseError { message: "expected only decimal digits".to_owned() });
        }
        let d: u64 = (cu - 48) as u64;
        proof {
            lemma_digits_val_step(text@, i as int);
        }
        if acc > u64::MAX / 10 || (acc == u64::MAX / 10 && d > u64::MAX % 10) {
            proof {
                lemma_digits_val_prefix_le(text@, i + 1);
            }
            return Err(ParseError { message: "number does not fit in 64 bits".to_owned() });
        }
        acc = acc * 10 + d;
        i += 1;
    }
    proof {
        assert(text@.subrange(0, len as int) =~= text@);
    }
    Ok(acc)
}

/// A `String` reloads as the file's raw text, whatever the declared
/// format; it never fails to decode.
impl Reloadable for String {
    fn parse_text(format: FileFormat, text: &str) -> (r: Result<String, ParseError>)
        ensures
            r matches Ok(v) && v@ == text@,
    {
        Ok(text.to_owned())
    }
}

/// A bare unsigned integer reloads from a file that holds nothing but its
/// decimal digits.  This is the library's own scalar decoder, applied the
/// same way whatever format is declared; [`parse_u64_text`] carries the
/// exact contract.
impl Reloadable for u64 {
    fn parse_text(format: FileFormat, text: &str) -> (r: Result<u64, ParseError>)
        ensures
            r matches Ok(v) ==> u64_parse_spec(text@) == Some(v),
            r is Err ==> u64_parse_spec(text@) is None,
    {
        parse_u64_text(text)
    }
}

} // verus!
