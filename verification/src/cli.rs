//! The arguments of `add`, as plain values.

use vstd::prelude::*;

verus! {

/// The mathematical value of [`AddArgs`].
pub struct AddArgsModel {
    pub branch: Option<Seq<char>>,
    pub force_branch: Option<Seq<char>>,
    pub detach: bool,
    pub name_or_path: Option<Seq<char>>,
    pub commitish: Option<Seq<char>>,
}

/// The view of an optional string.
pub open spec fn text_view(text: Option<String>) -> Option<Seq<char>> {
    match text {
        Some(text) => Some(text@),
        None => None,
    }
}

/// What says where the new worktree goes and which branch it gets. At least one of
/// the four is given.
#[derive(Debug, PartialEq, Eq)]
pub struct AddArgsInner {
    /// Create a new branch with the given name instead of checking out an existing
    /// branch. An existing branch of that name is not reset.
    pub branch: Option<String>,
    /// Create a new branch with the given name, overwriting an existing branch of
    /// that name.
    pub force_branch: Option<String>,
    /// Create the new worktree in detached mode, not checked out on any branch.
    pub detach: bool,
    /// The new worktree's name or path.
    ///
    /// With a `/` in it, it is a path. Otherwise it is a name in the directory of the
    /// other worktrees, and a branch with that name is checked out or created. Of a
    /// path, only the last component is used as the branch name.
    pub name_or_path: Option<String>,
}

/// The arguments of `add`.
#[derive(Debug, PartialEq, Eq)]
pub struct AddArgs {
    pub inner: AddArgsInner,
    /// The commit to check out in the new worktree. The name of a unique remote
    /// branch makes a local branch of that name that tracks it.
    pub commitish: Option<String>,
    /// Extra arguments to forward to `git worktree add`.
    pub worktree_add_args: Vec<String>,
}

impl View for AddArgs {
    type V = AddArgsModel;

    open spec fn view(&self) -> AddArgsModel {
        AddArgsModel {
            branch: text_view(self.inner.branch),
            force_branch: text_view(self.inner.force_branch),
            detach: self.inner.detach,
            name_or_path: text_view(self.inner.name_or_path),
            commitish: text_view(self.commitish),
        }
    }
}

} // verus!
