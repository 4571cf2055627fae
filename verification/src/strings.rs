//! Text primitives the filter and the article builder rest on: substring
//! search, case folding, whitespace trimming, and growing a `String`.
//!
//! Each executable function here wraps exactly one function of std whose
//! behaviour vstd does not specify; everything else in the crate is proved
//! against the contracts below.

use vstd::prelude::*;

verus! {

/// `needle` occurs contiguously somewhere in `hay` (the empty needle occurs
/// in every sequence).
pub open spec fn is_substring(needle: Seq<char>, hay: Seq<char>) -> bool {
    exists|k: int|
        0 <= k && k + needle.len() <= hay.len() && #[trigger] hay.subrange(k, k + needle.len())
            == needle
}

/// The Unicode lowercase form of a sequence of characters, as
/// `str::to_lowercase` computes it. The mapping depends on the characters
/// alone, so it is only named here, never spelled out.
pub uninterp spec fn lower_of(s: Seq<char>) -> Seq<char>;

/// The text left after removing leading and trailing whitespace, as
/// `str::trim` computes it. Which characters count as whitespace is a
/// Unicode property, so the result is only named, never spelled out.
pub uninterp spec fn trim_of(s: Seq<char>) -> Seq<char>;

/// Relies on `str::to_lowercase`: the result is the lowercase equivalent of
/// the input, a function of the input characters alone; an empty string
/// stays empty.
#[verifier::external_body]
pub(crate) fn lowercase(s: &str) -> (r: String)
    ensures
        r@ == lower_of(s@),
        s@.len() == 0 ==> r@.len() == 0,
{
    s.to_lowercase()
}

/// Relies on `str::contains` with a `&str` pattern: true exactly when the
/// pattern matches a sub-slice of the string.
#[verifier::external_body]
pub(crate) fn contains_sub(hay: &str, needle: &str) -> (r: bool)
    ensures
        r == is_substring(needle@, hay@),
{
    hay.contains(needle)
}

/// Relies on `str::trim`: returns the input with leading and trailing
/// whitespace removed, a function of the input characters alone; an empty
/// string stays empty.
#[verifier::external_body]
pub(crate) fn trim(s: &str) -> (r: &str)
    ensures
        r@ == trim_of(s@),
        s@.len() == 0 ==> r@.len() == 0,
{
    s.trim()
}

/// Relies on `String::push_str`: appends the given slice onto the end of
/// the string.
#[verifier::external_body]
pub(crate) fn push_str(s: &mut String, t: &str)
    ensures
        final(s)@ == old(s)@ + t@,
{
    s.push_str(t)
}

/// Relies on `String::push`: appends the given character onto the end of
/// the string.
#[verifier::external_body]
pub(crate) fn push_char(s: &mut String, c: char)
    ensures
        final(s)@ == old(s)@.push(c),
{
    s.push(c)
}

/// Relies on `String::pop`: removes and returns the last character, or
/// returns `None` and leaves the string alone when it is empty.
#[verifier::external_body]
pub(crate) fn pop_char(s: &mut String) -> (r: Option<char>)
    ensures
        old(s)@.len() == 0 ==> r is None && final(s)@ == old(s)@,
        old(s)@.len() > 0 ==> r == Some(old(s)@.last()) && final(s)@ == old(s)@.drop_last(),
{
    s.pop()
}

} // verus!
