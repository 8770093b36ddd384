//! Placeholders of bind parameters: `?`, counted from the left, and `$n`,
//! which carries its own index.

use crate::text::{parse_decimal, parse_decimal_spec};
use regex::Regex;
use vstd::prelude::*;

verus! {

/// What the group with the number `group` holds in the first match of the
/// regular expression `pattern` in `text`, as the `regex` crate finds it;
/// `None` where `pattern` is no regular expression, where `text` holds no
/// match, and where the group took no part in the match.
pub uninterp spec fn regex_capture(pattern: Seq<char>, text: Seq<char>, group: int) -> Option<
    Seq<char>,
>;

/// Calls `Regex::new` and `Regex::captures` of the `regex` crate and hands
/// out the text of one group of the match. The contract only names the
/// result.
#[verifier::external_body]
pub(crate) fn capture(pattern: &str, text: &str, group: usize) -> (found: Option<String>)
    ensures
        match found {
            Some(held) => regex_capture(pattern@, text@, group as int) == Some(held@),
            None => regex_capture(pattern@, text@, group as int) is None,
        },
{
    let compiled = Regex::new(pattern).ok()?;
    let captures = compiled.captures(text)?;
    captures.get(group).map(|held| held.as_str().to_string())
}

/// The digits of the first `$n` in `placeholder`, where `n` is a run of one
/// or more decimal digits, as long as can be had; `None` where `placeholder`
/// holds no `$n`. A digit is what the `regex` crate takes for `\d`.
pub open spec fn indexed_placeholder_digits(placeholder: Seq<char>) -> Option<Seq<char>> {
    regex_capture("\\$(\\d+)"@, placeholder, 1)
}

/// The digits of the first `$n` in `placeholder`.
pub fn capture_placeholder_digits(placeholder: &str) -> (digits: Option<String>)
    ensures
        match digits {
            Some(text) => indexed_placeholder_digits(placeholder@) == Some(text@),
            None => indexed_placeholder_digits(placeholder@) is None,
        },
{
    capture("\\$(\\d+)", placeholder, 1)
}

/// The index that `digits` writes, if it is a number in base ten that an
/// `i32` can hold.
pub open spec fn placeholder_index(digits: Seq<char>) -> Option<int> {
    parse_decimal_spec(digits, i32::MAX as int)
}

/// Reads the digits of a `$n` placeholder as its index.
pub fn parse_placeholder_index(digits: &str) -> (index: Option<i32>)
    ensures
        match index {
            Some(n) => placeholder_index(digits@) == Some(n as int),
            None => placeholder_index(digits@) is None,
        },
{
    match parse_decimal(digits, 0x7fff_ffff) {
        Some(n) => Some(n as i32),
        None => None,
    }
}

} // verus!
