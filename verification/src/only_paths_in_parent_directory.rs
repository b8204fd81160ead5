//! Paths that are alone in one directory.

use vstd::prelude::*;
use vstd::string::*;
use crate::path::file_name;
use crate::path::is_same_path;
use crate::path::parent;
use crate::path::path_file_name;
use crate::path::path_parent;
use crate::path::same_path;
use crate::text::contains;
use crate::text::has_prefix;
use crate::text::spec_matches_at;
use crate::text::views;

verus! {

/// Whether each of `paths` has a name and a parent, and all parents are the parent of
/// the first path.
pub open spec fn spec_share_parent(paths: Seq<Seq<char>>) -> bool {
    &&& paths.len() > 0
    &&& forall|k: int|
        0 <= k < paths.len() ==> {
            &&& path_parent(#[trigger] paths[k]) is Some
            &&& path_file_name(paths[k]) is Some
            &&& same_path(path_parent(paths[k])->0, path_parent(paths[0])->0)
        }
}

/// The names of `paths`, in order.
pub open spec fn spec_file_names(paths: Seq<Seq<char>>) -> Seq<Seq<char>> {
    paths.map_values(|path: Seq<char>| path_file_name(path)->0)
}

/// Whether every entry of a directory is a dotfile or one of `names`.
pub open spec fn spec_only_names_and_dotfiles(entries: Seq<Seq<char>>, names: Seq<Seq<char>>) -> bool {
    forall|k: int|
        0 <= k < entries.len() ==> spec_matches_at(#[trigger] entries[k], 0, "."@) || names.contains(
            entries[k],
        )
}

/// The directory that all of `paths` lie in directly, with their names in it. `None`
/// where they do not share a parent, or one of them has no parent or no name, or
/// there is no path at all.
pub fn shared_parent(paths: &Vec<String>) -> (shared: Option<(String, Vec<String>)>)
    ensures
        match shared {
            Some((above, names)) => spec_share_parent(views(paths@)) && Some(above@) == path_parent(
                paths@[0]@,
            ) && views(names@) == spec_file_names(views(paths@)),
            None => !spec_share_parent(views(paths@)),
        },
{
    if paths.len() == 0 {
        return None;
    }
    let above = match parent(paths[0].as_str()) {
        Some(path) => path,
        None => {
            assert(path_parent(views(paths@)[0]) is None);
            return None;
        },
    };
    let mut names: Vec<String> = Vec::new();
    let mut k: usize = 0;
    assert(views(names@) =~= spec_file_names(views(paths@)).take(0));
    while k < paths.len()
        invariant
            k <= paths@.len(),
            paths@.len() > 0,
            Some(above@) == path_parent(paths@[0]@),
            views(names@) == spec_file_names(views(paths@)).take(k as int),
            forall|j: int|
                0 <= j < k ==> {
                    &&& path_parent(#[trigger] views(paths@)[j]) is Some
                    &&& path_file_name(views(paths@)[j]) is Some
                    &&& same_path(path_parent(views(paths@)[j])->0, path_parent(views(paths@)[0])->0)
                },
        decreases paths@.len() - k,
    {
        let path = paths[k].as_str();
        assert(views(paths@)[k as int] == path@);
        assert(views(paths@)[0] == paths@[0]@);
        match parent(path) {
            Some(other) => {
                if !is_same_path(other.as_str(), above.as_str()) {
                    return None;
                }
            },
            None => {
                return None;
            },
        }
        match file_name(path) {
            Some(name) => {
                let ghost before = views(names@);
                names.push(name);
                assert(views(names@) =~= before.push(path_file_name(path@)->0));
                assert(views(names@) =~= spec_file_names(views(paths@)).take(k + 1));
            },
            None => {
                return None;
            },
        }
        k = k + 1;
    }
    assert(spec_file_names(views(paths@)).take(k as int) =~= spec_file_names(views(paths@)));
    Some((above, names))
}

/// Check if a directory contains only entries listed in `names` and dotfiles.
/// `entries` are the names of the entries of the directory.
pub fn path_contains_only_names_and_dotfiles(entries: &Vec<String>, names: &Vec<String>) -> (only: bool)
    ensures
        only == spec_only_names_and_dotfiles(views(entries@), views(names@)),
{
    let mut k: usize = 0;
    while k < entries.len()
        invariant
            k <= entries@.len(),
            forall|j: int|
                0 <= j < k ==> spec_matches_at(#[trigger] views(entries@)[j], 0, "."@) || views(
                    names@,
                ).contains(views(entries@)[j]),
        decreases entries@.len() - k,
    {
        let name = entries[k].as_str();
        assert(views(entries@)[k as int] == name@);
        if !has_prefix(name, ".") && !contains(names, name) {
            return false;
        }
        k = k + 1;
    }
    true
}

/// Check if a set of paths all have the same parent directory and they are the only
/// paths in that directory (other than dotfiles). `entries` are the names of the
/// entries of the directory that [`shared_parent`] gives for the paths.
pub fn only_paths_in_parent_directory(paths: &Vec<String>, entries: &Vec<String>) -> (above: Option<
    String,
>)
    ensures
        match above {
            Some(path) => spec_share_parent(views(paths@)) && Some(path@) == path_parent(paths@[0]@)
                && spec_only_names_and_dotfiles(views(entries@), spec_file_names(views(paths@))),
            None => !spec_share_parent(views(paths@)) || !spec_only_names_and_dotfiles(
                views(entries@),
                spec_file_names(views(paths@)),
            ),
        },
{
    match shared_parent(paths) {
        Some((above, names)) => {
            if path_contains_only_names_and_dotfiles(entries, &names) {
                Some(above)
            } else {
                None
            }
        },
        None => None,
    }
}

} // verus!
