//! Optional strings, compared and shown by their characters.

use crate::text;
use vstd::prelude::*;
use vstd::string::*;

verus! {

/// The characters of an optional string.
pub open spec fn chars_of(o: Option<String>) -> Option<Seq<char>> {
    match o {
        Some(s) => Some(s@),
        None => None,
    }
}

/// Do both hold the same text, or neither any?
pub fn same_option(a: &Option<String>, b: &Option<String>) -> (r: bool)
    ensures
        r == (chars_of(*a) == chars_of(*b)),
{
    match (a, b) {
        (Some(x), Some(y)) => text::same(x.as_str(), y.as_str()),
        (None, None) => true,
        _ => false,
    }
}

/// What the formatter of std writes for an optional string under `{:?}`.
pub uninterp spec fn debug_chars(o: Option<Seq<char>>) -> Seq<char>;

/// Calls the `Debug` formatting of std's `Option<String>`. The text depends on the
/// characters alone; `None` is written as the word `None`. How a present string is
/// quoted and escaped is left to the formatter.
#[verifier::external_body]
pub(crate) fn debug_option(o: &Option<String>) -> (r: String)
    ensures
        r@ == debug_chars(chars_of(*o)),
        o is None ==> r@ == "None"@,
{
    format!("{:?}", o)
}

/// Two texts that may be missing are the same exactly if both are missing or both hold the same
/// characters.
pub proof fn what_is_missing_is_told_from_what_is_empty(a: String, b: String)
    ensures
        chars_of(Some(a)) == chars_of(Some(b)) <==> a@ == b@,
        chars_of(Some(a)) != chars_of(None),
{
}

} // verus!
