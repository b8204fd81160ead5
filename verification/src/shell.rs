//! Shell text, as the `shell-words` and `unindent` crates read it.

use vstd::prelude::*;
use crate::text::views;

verus! {

/// What `shell_words::split` makes of `text`: the words, or `None` where it reports
/// a parse error.
pub uninterp spec fn shell_words_of(text: Seq<char>) -> Option<Seq<Seq<char>>>;

/// What `unindent::unindent` returns for `text`.
pub uninterp spec fn unindented(text: Seq<char>) -> Seq<char>;

/// Calls `shell_words::split`: the text split into words as a Unix shell would. The
/// contract only gives the result its name.
#[verifier::external_body]
pub(crate) fn split(text: &str) -> (words: Option<Vec<String>>)
    ensures
        match words {
            Some(list) => shell_words_of(text@) == Some(views(list@)),
            None => shell_words_of(text@) is None,
        },
{
    match shell_words::split(text) {
        Ok(words) => Some(words),
        Err(_) => None,
    }
}

/// Calls `unindent::unindent`: the indentation common to the lines after the first
/// removed. The contract only gives the result its name.
#[verifier::external_body]
pub(crate) fn unindent(text: &str) -> (out: String)
    ensures
        out@ == unindented(text@),
{
    unindent::unindent(text)
}

} // verus!
