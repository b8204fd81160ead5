//! GitHub's short repository names, `<organization>/<repository>`.

use vstd::prelude::*;
use crate::text::to_chars;

verus! {

/// Whether `c` may stand in a GitHub name: a letter, a digit, `-`, `_` or `.`.
///
/// GitHub is a little more restrictive than this.
pub open spec fn is_github_name_char(c: char) -> bool {
    ('a' <= c && c <= 'z') || ('A' <= c && c <= 'Z') || ('0' <= c && c <= '9') || c == '-' || c
        == '_' || c == '.'
}

/// The first position at or after `from` that holds no name character.
pub open spec fn spec_name_run(s: Seq<char>, from: int) -> int
    decreases s.len() - from,
{
    if from < 0 || from >= s.len() || !is_github_name_char(s[from]) {
        from
    } else {
        spec_name_run(s, from + 1)
    }
}

/// Whether `s` is an organization of 1 to 39 name characters, a slash, and a
/// repository of 1 to 100 name characters, and nothing else.
pub open spec fn spec_is_gh_url(s: Seq<char>) -> bool {
    let slash = spec_name_run(s, 0);
    let end = spec_name_run(s, slash + 1);
    &&& 1 <= slash <= 39
    &&& slash < s.len()
    &&& s[slash] == '/'
    &&& 1 <= end - (slash + 1) <= 100
    &&& end == s.len()
}

fn is_name_char(c: char) -> (name: bool)
    ensures
        name == is_github_name_char(c),
{
    ('a' <= c && c <= 'z') || ('A' <= c && c <= 'Z') || ('0' <= c && c <= '9') || c == '-' || c
        == '_' || c == '.'
}

fn name_run(chars: &Vec<char>, from: usize) -> (end: usize)
    requires
        from <= chars@.len(),
    ensures
        end == spec_name_run(chars@, from as int),
        from <= end <= chars@.len(),
{
    let mut end: usize = from;
    while end < chars.len() && is_name_char(chars[end])
        invariant
            from <= end <= chars@.len(),
            spec_name_run(chars@, from as int) == spec_name_run(chars@, end as int),
        decreases chars@.len() - end,
    {
        end = end + 1;
    }
    end
}

/// Whether `url` has the form of a GitHub repository name like `9999years/git-prole`.
pub fn parse_gh_url(url: &str) -> (matched: bool)
    ensures
        matched == spec_is_gh_url(url@),
{
    let chars = to_chars(url);
    let slash = name_run(&chars, 0);
    if slash < 1 || slash > 39 || slash >= chars.len() || chars[slash] != '/' {
        return false;
    }
    let end = name_run(&chars, slash + 1);
    end - (slash + 1) >= 1 && end - (slash + 1) <= 100 && end == chars.len()
}

/// Whether `url` is taken for a GitHub repository name: it has the form of one, and
/// there is no local path of that name.
pub fn looks_like_gh_url(url: &str, exists_locally: bool) -> (looks: bool)
    ensures
        looks == (spec_is_gh_url(url@) && !exists_locally),
{
    parse_gh_url(url) && !exists_locally
}

} // verus!
