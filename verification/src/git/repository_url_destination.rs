//! Where a clone goes by default.

use vstd::prelude::*;
use vstd::string::*;
use crate::final_component::final_component;
use crate::final_component::spec_final_component;
use crate::text::has_suffix;
use crate::text::spec_has_suffix;

verus! {

/// The last component of `url`, without a `.git` at its end.
pub open spec fn spec_repository_url_destination(url: Seq<char>) -> Seq<char> {
    let last = spec_final_component(url);
    if spec_has_suffix(last, ".git"@) {
        last.take(last.len() - ".git"@.len())
    } else {
        last
    }
}

/// Where will `url` be cloned to?
///
/// It's always in the current directory.
pub fn repository_url_destination(url: &str) -> (destination: &str)
    ensures
        destination@ == spec_repository_url_destination(url@),
{
    let last_component = final_component(url);
    if has_suffix(last_component, ".git") {
        let length = last_component.unicode_len();
        let suffix = ".git".unicode_len();
        let stripped = last_component.substring_char(0, length - suffix);
        assert(stripped@ =~= last_component@.take(last_component@.len() - ".git"@.len()));
        stripped
    } else {
        last_component
    }
}

} // verus!
