//! Regular expressions, from the `regex` crate: whether a pattern compiles
//! (and the error it gives when not) and whether it matches a text.

use vstd::prelude::*;

verus! {

/// The error message `regex::Regex::new` gives for a pattern, or `None`
/// when the pattern compiles. It depends on the pattern alone.
pub uninterp spec fn regex_compile_error(pattern: Seq<char>) -> Option<Seq<char>>;

/// Whether the regular expression of a pattern that compiles matches
/// somewhere in a text (`regex::Regex::is_match`).
pub uninterp spec fn regex_match(pattern: Seq<char>, text: Seq<char>) -> bool;

/// Compiles a pattern with `regex::Regex::new`: `Ok` when it compiles, else
/// the error's message. The regex syntax is not written out here: the
/// outcome is named `regex_compile_error`.
#[verifier::external_body]
pub(crate) fn regex_check(pattern: &str) -> (r: Result<(), String>)
    ensures
        match regex_compile_error(pattern@) {
            None => r is Ok,
            Some(m) => r matches Err(s) && s@ == m,
        },
{
    match regex::Regex::new(pattern) {
        Ok(_) => Ok(()),
        Err(e) => Err(e.to_string()),
    }
}

/// Whether a pattern that compiles matches somewhere in a text, with
/// `regex::Regex::new` and `regex::Regex::is_match`. The result is named
/// `regex_match`.
#[verifier::external_body]
pub(crate) fn regex_is_match(pattern: &str, text: &str) -> (b: bool)
    requires
        regex_compile_error(pattern@) is None,
    ensures
        b == regex_match(pattern@, text@),
{
    match regex::Regex::new(pattern) {
        Ok(re) => re.is_match(text),
        Err(_) => false,
    }
}

} // verus!
