//! Paths, as the `camino` crate reads them.
//!
//! A path is held as text. What `camino` makes of that text is named here by spec
//! functions without a body: nothing is claimed of them beyond what the wrappers
//! below state. The statements are those of a Unix-like target, where a component
//! is told from another by its text alone.

use vstd::prelude::*;
use camino::Utf8Path;

verus! {

/// The components of `path`, each as its text, as `Utf8Path::components` yields them
/// and `Utf8Component::as_str` shows them. The crate compares paths, and tells
/// whether one starts with another, by these components.
pub uninterp spec fn path_components(path: Seq<char>) -> Seq<Seq<char>>;

/// Whether `Utf8Path::is_relative` holds of `path`.
pub uninterp spec fn path_is_relative(path: Seq<char>) -> bool;

/// What `Utf8Path::file_name` returns for `path`.
pub uninterp spec fn path_file_name(path: Seq<char>) -> Option<Seq<char>>;

/// What `Utf8Path::parent` returns for `path`.
pub uninterp spec fn path_parent(path: Seq<char>) -> Option<Seq<char>>;

/// What `Utf8Path::join` returns for `base` and `tail`.
pub uninterp spec fn path_join(base: Seq<char>, tail: Seq<char>) -> Seq<char>;

/// Whether two texts are the same path: they have the same components.
pub open spec fn same_path(a: Seq<char>, b: Seq<char>) -> bool {
    path_components(a) == path_components(b)
}

/// Whether `base` is a prefix of `path`, by whole components.
pub open spec fn path_starts_with(path: Seq<char>, base: Seq<char>) -> bool {
    path_components(base).is_prefix_of(path_components(path))
}

/// Whether `path` lies below `base`: `base` is a prefix of it and not the same path.
pub open spec fn path_below(path: Seq<char>, base: Seq<char>) -> bool {
    path_starts_with(path, base) && !same_path(path, base)
}

/// A path below another has more components.
pub proof fn lemma_below_is_deeper(path: Seq<char>, base: Seq<char>)
    requires
        path_below(path, base),
    ensures
        path_components(base).len() < path_components(path).len(),
{
    let long = path_components(path);
    let short = path_components(base);
    if short.len() == long.len() {
        assert(short =~= long.subrange(0, short.len() as int));
        assert(long.subrange(0, long.len() as int) =~= long);
    }
}

/// Calls `Utf8Path::starts_with`, which the crate documents as: `base` is a prefix
/// of `path`, only whole components matching.
#[verifier::external_body]
pub(crate) fn starts_with(path: &str, base: &str) -> (prefixed: bool)
    ensures
        prefixed == path_components(base@).is_prefix_of(path_components(path@)),
{
    Utf8Path::new(path).starts_with(base)
}

/// Calls `==` of `Utf8Path`, which compares the two paths' components.
#[verifier::external_body]
pub(crate) fn is_same_path(a: &str, b: &str) -> (same: bool)
    ensures
        same == (path_components(a@) == path_components(b@)),
{
    Utf8Path::new(a) == Utf8Path::new(b)
}

/// Calls `Utf8Path::is_relative`. The contract only gives the result its name.
#[verifier::external_body]
pub(crate) fn is_relative(path: &str) -> (relative: bool)
    ensures
        relative == path_is_relative(path@),
{
    Utf8Path::new(path).is_relative()
}

/// Calls `Utf8Path::file_name`: the final component, if there is one. The contract
/// only gives the result its name.
#[verifier::external_body]
pub(crate) fn file_name(path: &str) -> (name: Option<String>)
    ensures
        match name {
            Some(text) => path_file_name(path@) == Some(text@),
            None => path_file_name(path@) is None,
        },
{
    Utf8Path::new(path).file_name().map(|name| name.to_owned())
}

/// Calls `Utf8Path::parent`: the path without its final component, if there is one.
/// The contract only gives the result its name.
#[verifier::external_body]
pub(crate) fn parent(path: &str) -> (above: Option<String>)
    ensures
        match above {
            Some(text) => path_parent(path@) == Some(text@),
            None => path_parent(path@) is None,
        },
{
    Utf8Path::new(path).parent().map(|above| above.as_str().to_owned())
}

/// Calls `Utf8Path::join`: `tail` adjoined to `base`. The contract only gives the
/// result its name.
#[verifier::external_body]
pub(crate) fn join(base: &str, tail: &str) -> (joined: String)
    ensures
        joined@ == path_join(base@, tail@),
{
    Utf8Path::new(base).join(tail).into_string()
}

} // verus!
