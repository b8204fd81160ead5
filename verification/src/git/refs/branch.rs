//! Branches, local or remote-tracking.

use vstd::prelude::*;
use vstd::string::*;
use crate::git::refs::local_branch::LocalBranchRef;
use crate::git::refs::name::Ref;
use crate::git::refs::name::RefModel;
use crate::git::refs::remote_branch::has_slash;
use crate::git::refs::remote_branch::RemoteBranchRef;
use crate::git::refs::remote_branch::spec_branch_of;

verus! {

/// The mathematical value of a [`BranchRef`].
pub enum BranchModel {
    /// A local branch, by its name.
    Local(Seq<char>),
    /// A remote-tracking branch, by its qualified name `<remote>/<branch>`.
    Remote(Seq<char>),
}

impl BranchModel {
    /// The name with the remote, where there is one.
    pub open spec fn qualified_branch_name(self) -> Seq<char> {
        match self {
            BranchModel::Local(name) => name,
            BranchModel::Remote(qualified) => qualified,
        }
    }

    /// The name without the remote.
    pub open spec fn branch_name(self) -> Seq<char> {
        match self {
            BranchModel::Local(name) => name,
            BranchModel::Remote(qualified) => spec_branch_of(qualified),
        }
    }

    /// The ref that the branch is.
    pub open spec fn as_ref(self) -> RefModel {
        match self {
            BranchModel::Local(name) => RefModel { kind: "heads"@, name },
            BranchModel::Remote(qualified) => RefModel { kind: "remotes"@, name: qualified },
        }
    }

    /// The branch that a ref is, if it is one.
    pub open spec fn of_ref(value: RefModel) -> Option<BranchModel> {
        if value.kind == "heads"@ {
            Some(BranchModel::Local(value.name))
        } else if value.kind == "remotes"@ && has_slash(value.name) {
            Some(BranchModel::Remote(value.name))
        } else {
            None
        }
    }
}

/// A git reference to a local or a remote-tracking branch.
#[derive(Debug, PartialEq, Eq, Hash)]
pub enum BranchRef {
    /// A local branch.
    Local(LocalBranchRef),
    /// A remote-tracking branch.
    Remote(RemoteBranchRef),
}

impl View for BranchRef {
    type V = BranchModel;

    open spec fn view(&self) -> BranchModel {
        match self {
            BranchRef::Local(local) => BranchModel::Local(local@),
            BranchRef::Remote(remote) => BranchModel::Remote(remote@),
        }
    }
}

impl Clone for BranchRef {
    fn clone(&self) -> (copy: Self)
        ensures
            copy@ == self@,
    {
        match self {
            BranchRef::Local(local) => BranchRef::Local(local.clone()),
            BranchRef::Remote(remote) => BranchRef::Remote(remote.clone()),
        }
    }
}

impl BranchRef {
    /// The qualified name of this branch: with the remote, where there is one.
    pub fn qualified_branch_name(&self) -> (name: &str)
        ensures
            name@ == self@.qualified_branch_name(),
    {
        match self {
            BranchRef::Local(local) => local.branch_name(),
            BranchRef::Remote(remote) => remote.qualified_branch_name(),
        }
    }

    /// The name of this branch, without the remote.
    pub fn branch_name(&self) -> (name: String)
        ensures
            name@ == self@.branch_name(),
    {
        match self {
            BranchRef::Local(local) => local.branch_name().to_owned(),
            BranchRef::Remote(remote) => remote.branch_name(),
        }
    }

    /// The local branch of the same branch name.
    pub fn as_local(&self) -> (local: LocalBranchRef)
        ensures
            local@ == self@.branch_name(),
    {
        match self {
            BranchRef::Local(local) => local.clone(),
            BranchRef::Remote(remote) => remote.as_local(),
        }
    }

    /// The underlying ref.
    pub fn as_ref(&self) -> (inner: &Ref)
        ensures
            inner@ == self@.as_ref(),
    {
        match self {
            BranchRef::Local(local) => local.as_ref(),
            BranchRef::Remote(remote) => remote.as_ref(),
        }
    }

    /// Narrows a ref to a branch: `Ok` for a local branch and for a remote-tracking
    /// branch. Another ref comes back unchanged in `Err`.
    pub fn try_from(value: Ref) -> (narrowed: Result<Self, Ref>)
        ensures
            match narrowed {
                Ok(branch) => BranchModel::of_ref(value@) == Some(branch@),
                Err(other) => BranchModel::of_ref(value@) is None && other@ == value@,
            },
    {
        if value.is_local_branch() {
            match LocalBranchRef::try_from(value) {
                Ok(local) => Ok(BranchRef::Local(local)),
                Err(other) => Err(other),
            }
        } else {
            match RemoteBranchRef::try_from(value) {
                Ok(remote) => Ok(BranchRef::Remote(remote)),
                Err(other) => Err(other),
            }
        }
    }

    /// The short form: the qualified branch name.
    pub fn to_string(&self) -> (text: String)
        ensures
            text@ == self@.qualified_branch_name(),
    {
        self.qualified_branch_name().to_owned()
    }

    /// The fully qualified form: `refs/heads/<name>` or `refs/remotes/<remote>/<branch>`.
    pub fn to_qualified_string(&self) -> (text: String)
        ensures
            text@ == self@.as_ref().qualified(),
    {
        match self {
            BranchRef::Local(local) => local.to_qualified_string(),
            BranchRef::Remote(remote) => remote.to_qualified_string(),
        }
    }
}

} // verus!
