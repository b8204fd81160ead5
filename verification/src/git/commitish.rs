//! What a `<commit-ish>` resolves to.

use vstd::prelude::*;
use vstd::string::*;
use crate::git::commit_hash::CommitHash;
use crate::git::refs::name::Ref;
use crate::git::refs::name::RefModel;

verus! {

/// The mathematical value of a [`ResolvedCommitish`].
pub enum CommitishModel {
    Commit(Seq<char>),
    Ref(RefModel),
}

impl CommitishModel {
    /// The short text: the abbreviated hash, or the ref's name.
    pub open spec fn short(self) -> Seq<char> {
        match self {
            CommitishModel::Commit(hash) => CommitHash::spec_abbrev(hash),
            CommitishModel::Ref(name) => name.name,
        }
    }

    /// The full text: the whole hash, or the qualified ref.
    pub open spec fn full(self) -> Seq<char> {
        match self {
            CommitishModel::Commit(hash) => hash,
            CommitishModel::Ref(name) => name.qualified(),
        }
    }
}

/// A resolved `<commit-ish>`: a commit hash or a ref name.
#[derive(Debug, PartialEq, Eq)]
pub enum ResolvedCommitish {
    /// A commit hash.
    Commit(CommitHash),
    /// A ref name.
    Ref(Ref),
}

impl View for ResolvedCommitish {
    type V = CommitishModel;

    open spec fn view(&self) -> CommitishModel {
        match self {
            ResolvedCommitish::Commit(commit) => CommitishModel::Commit(commit@),
            ResolvedCommitish::Ref(name) => CommitishModel::Ref(name@),
        }
    }
}

impl Clone for ResolvedCommitish {
    fn clone(&self) -> (copy: Self)
        ensures
            copy@ == self@,
    {
        match self {
            ResolvedCommitish::Commit(commit) => ResolvedCommitish::Commit(commit.clone()),
            ResolvedCommitish::Ref(name) => ResolvedCommitish::Ref(name.clone()),
        }
    }
}

impl ResolvedCommitish {
    /// The short form: the abbreviated hash, or the ref's name.
    pub fn to_string(&self) -> (text: String)
        ensures
            text@ == self@.short(),
    {
        match self {
            ResolvedCommitish::Commit(commit) => commit.to_string(),
            ResolvedCommitish::Ref(name) => name.to_string(),
        }
    }

    /// The full form: the whole hash, or the qualified ref.
    pub fn to_qualified_string(&self) -> (text: String)
        ensures
            text@ == self@.full(),
    {
        match self {
            ResolvedCommitish::Commit(commit) => commit.to_full_string(),
            ResolvedCommitish::Ref(name) => name.to_qualified_string(),
        }
    }
}

} // verus!
