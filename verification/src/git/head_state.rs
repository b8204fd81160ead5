//! The state of `HEAD`.

use vstd::prelude::*;
use vstd::string::*;
use crate::git::commit_hash::CommitHash;
use crate::git::refs::local_branch::LocalBranchRef;
use crate::text::str_eq;

verus! {

/// The mathematical value of a [`HeadKind`].
pub enum HeadKindModel {
    /// A detached `HEAD`, by its commit hash.
    Detached(Seq<char>),
    /// A checked-out branch, by its name.
    Branch(Seq<char>),
}

/// Is `HEAD` detached?
#[derive(Debug, PartialEq, Eq)]
pub enum HeadKind {
    Detached(CommitHash),
    Branch(LocalBranchRef),
}

impl View for HeadKind {
    type V = HeadKindModel;

    open spec fn view(&self) -> HeadKindModel {
        match self {
            HeadKind::Detached(commit) => HeadKindModel::Detached(commit@),
            HeadKind::Branch(branch) => HeadKindModel::Branch(branch@),
        }
    }
}

impl Clone for HeadKind {
    fn clone(&self) -> (copy: Self)
        ensures
            copy@ == self@,
    {
        match self {
            HeadKind::Detached(commit) => HeadKind::Detached(commit.clone()),
            HeadKind::Branch(branch) => HeadKind::Branch(branch.clone()),
        }
    }
}

impl HeadKind {
    /// What to hand to git to name this `HEAD`: the whole hash, or the branch name.
    pub fn commitish(&self) -> (text: &str)
        ensures
            text@ == match self@ {
                HeadKindModel::Detached(hash) => hash,
                HeadKindModel::Branch(name) => name,
            },
    {
        match self {
            HeadKind::Detached(commit) => commit.as_str(),
            HeadKind::Branch(branch) => branch.branch_name(),
        }
    }

    /// The name of the checked-out branch, if `HEAD` is on one.
    pub fn branch_name(&self) -> (name: Option<&str>)
        ensures
            match name {
                Some(text) => self@ == HeadKindModel::Branch(text@),
                None => self@ is Detached,
            },
    {
        match self {
            HeadKind::Detached(_) => None,
            HeadKind::Branch(branch) => Some(branch.branch_name()),
        }
    }

    /// Whether `HEAD` is on the branch named `branch_name`.
    pub fn is_on_branch(&self, branch_name: &str) -> (on: bool)
        ensures
            on == (self@ == HeadKindModel::Branch(branch_name@)),
    {
        match self {
            HeadKind::Detached(_) => false,
            HeadKind::Branch(checked_out) => str_eq(checked_out.branch_name(), branch_name),
        }
    }

    /// The short form: the abbreviated hash, or the branch name.
    pub fn to_string(&self) -> (text: String)
        ensures
            text@ == match self@ {
                HeadKindModel::Detached(hash) => CommitHash::spec_abbrev(hash),
                HeadKindModel::Branch(name) => name,
            },
    {
        match self {
            HeadKind::Detached(commit) => commit.to_string(),
            HeadKind::Branch(branch) => branch.to_string(),
        }
    }
}

} // verus!
