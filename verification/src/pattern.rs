//! Find-and-replace by regular expression, as the `regex` crate does it.
//!
//! A pattern is held as text. What the crate makes of it is named here by spec
//! functions without a body; nothing is claimed of them beyond the wrappers below.

use vstd::prelude::*;
use regex::Regex;

verus! {

/// Whether `Regex::new` accepts `pattern`.
pub uninterp spec fn regex_compiles(pattern: Seq<char>) -> bool;

/// What `Regex::replacen` returns for the regex of `pattern`, the haystack `text`,
/// the limit `limit` and the replacement `replace`.
pub uninterp spec fn regex_replaced(
    pattern: Seq<char>,
    text: Seq<char>,
    limit: int,
    replace: Seq<char>,
) -> Seq<char>;

/// Calls `Regex::new`, and says only whether it accepted the pattern.
#[verifier::external_body]
pub(crate) fn compiles(pattern: &str) -> (accepted: bool)
    ensures
        accepted == regex_compiles(pattern@),
{
    Regex::new(pattern).is_ok()
}

/// Calls `Regex::new` and `Regex::replacen`: at most `limit` matches replaced, all of
/// them where `limit` is `0`. The contract only gives the result its name.
#[verifier::external_body]
pub(crate) fn replacen(pattern: &str, text: &str, limit: usize, replace: &str) -> (out: String)
    requires
        regex_compiles(pattern@),
    ensures
        out@ == regex_replaced(pattern@, text@, limit as int, replace@),
{
    match Regex::new(pattern) {
        Ok(find) => find.replacen(text, limit, replace).into_owned(),
        Err(_) => text.to_owned(),
    }
}

} // verus!
