//! The last segment of a slash-separated name.

use vstd::prelude::*;
use vstd::string::*;
use crate::text::find_from;
use crate::text::lemma_rfind_bounds;
use crate::text::rfind;
use crate::text::spec_rfind;
use crate::text::to_chars;

verus! {

/// What follows the last slash of `path_ish`, or all of it where it holds no slash.
pub open spec fn spec_final_component(path_ish: Seq<char>) -> Seq<char> {
    let slash = spec_rfind(path_ish, path_ish.len() as int, '/');
    if slash < 0 {
        path_ish
    } else {
        path_ish.skip(slash + 1)
    }
}

/// The final component holds no slash.
pub proof fn lemma_final_component(path_ish: Seq<char>)
    ensures
        forall|k: int|
            0 <= k < spec_final_component(path_ish).len() ==> spec_final_component(path_ish)[k] != '/',
{
    lemma_rfind_bounds(path_ish, path_ish.len() as int, '/');
}

/// Get the final component of a path-like value.
pub fn final_component(path_ish: &str) -> (last: &str)
    ensures
        last@ == spec_final_component(path_ish@),
{
    let chars = to_chars(path_ish);
    proof {
        lemma_rfind_bounds(chars@, chars@.len() as int, '/');
    }
    match rfind(&chars, '/') {
        Some(slash) => {
            let length = chars.len();
            assert(slash < length);
            let last = path_ish.substring_char(slash + 1, length);
            assert(last@ =~= path_ish@.skip(slash + 1));
            last
        },
        None => path_ish,
    }
}

/// What comes before the first slash of `path_ish`, or all of it where it holds no
/// slash.
pub fn first_component(path_ish: &str) -> (first: String)
    ensures
        first@ == path_ish@.take(crate::text::spec_find_from(path_ish@, 0, '/')),
{
    let chars = to_chars(path_ish);
    let slash = find_from(&chars, 0, '/');
    let first = path_ish.substring_char(0, slash);
    assert(first@ =~= path_ish@.take(slash as int));
    first.to_owned()
}

} // verus!
