//! Branches of a repository: the commands to run, and what to decide of the answers.

use vstd::prelude::*;
use vstd::string::*;
use crate::git::CommandModel;
use crate::git::Git;
use crate::git::GitCommand;
use crate::git::refs::branch::BranchModel;
use crate::git::refs::branch::BranchRef;
use crate::git::refs::GitRefs;
use crate::git::refs::local_branch::LocalBranchRef;
use crate::git::refs::name::Ref;
use crate::git::refs::remote_branch::RemoteBranchRef;
use crate::text::list2;
use crate::text::list4;
use crate::text::str_eq;
use crate::text::views;

verus! {

/// The names of the local branches of `branches`.
pub open spec fn local_names(branches: Seq<LocalBranchRef>) -> Seq<Seq<char>> {
    branches.map_values(|branch: LocalBranchRef| branch@)
}

/// The qualified names of the answers of `answers`.
pub open spec fn remote_answers(answers: Seq<Option<RemoteBranchRef>>) -> Seq<Option<Seq<char>>> {
    answers.map_values(
        |answer: Option<RemoteBranchRef>|
            match answer {
                Some(branch) => Some(branch@),
                None => None,
            },
    )
}

/// The branch that the name `branch` stands for: the local branch of that name, if it
/// exists; else the unique remote branch of that name, if there is one.
pub open spec fn spec_local_or_remote(
    branch: Seq<char>,
    exists_local: bool,
    remote: Option<Seq<char>>,
) -> Option<BranchModel> {
    if exists_local {
        Some(BranchModel::Local(branch))
    } else {
        match remote {
            Some(qualified) => Some(BranchModel::Remote(qualified)),
            None => None,
        }
    }
}

/// What the search for the preferred default branch needs next.
pub enum PreferredModel {
    /// The search has ended, with this branch or without one.
    Found(Option<BranchModel>),
    /// Is there a unique remote branch of this name?
    Ask(Seq<char>),
}

/// The search for the preferred default branch among the names from `from` on.
///
/// The first name wins that is the name of a local branch or of a unique remote
/// branch. `answers` holds, for the first names, the unique remote branch of the name,
/// if there is one; the search asks for the answer that it misses.
pub open spec fn spec_preferred(
    names: Seq<Seq<char>>,
    locals: Seq<Seq<char>>,
    answers: Seq<Option<Seq<char>>>,
    from: int,
) -> PreferredModel
    decreases names.len() - from,
{
    if from < 0 || from >= names.len() {
        PreferredModel::Found(None)
    } else if locals.contains(names[from]) {
        PreferredModel::Found(Some(BranchModel::Local(names[from])))
    } else if from >= answers.len() {
        PreferredModel::Ask(names[from])
    } else if answers[from] is Some {
        PreferredModel::Found(Some(BranchModel::Remote(answers[from]->0)))
    } else {
        spec_preferred(names, locals, answers, from + 1)
    }
}

/// What the search for the preferred default branch needs next.
#[derive(Debug, PartialEq, Eq)]
pub enum PreferredStep {
    /// The search has ended, with this branch or without one.
    Found(Option<BranchRef>),
    /// Is there a unique remote branch of this name?
    Ask(String),
}

impl View for PreferredStep {
    type V = PreferredModel;

    open spec fn view(&self) -> PreferredModel {
        match self {
            PreferredStep::Found(Some(branch)) => PreferredModel::Found(Some(branch@)),
            PreferredStep::Found(None) => PreferredModel::Found(None),
            PreferredStep::Ask(name) => PreferredModel::Ask(name@),
        }
    }
}

/// Git methods for dealing with branches.
#[derive(Debug)]
pub struct GitBranch<'a> {
    git: &'a Git,
}

impl<'a> GitBranch<'a> {
    /// The `git` that the commands are made of.
    pub closed spec fn command(&self) -> CommandModel {
        self.git@
    }

    /// The branch methods of `git`.
    pub fn new(git: &'a Git) -> (branch: Self)
        ensures
            branch.command() == git@,
    {
        GitBranch { git }
    }

    /// The command that lists the local branches, as refs.
    pub fn list_local(&self) -> (command: GitCommand)
        ensures
            command@ == self.command().with_args(
                seq!["for-each-ref"@, "--format=%(refname)"@] + seq!["refs/heads/**"@],
            ),
    {
        let mut globs: Vec<String> = Vec::new();
        globs.push(String::from_str("refs/heads/**"));
        assert(views(globs@) =~= seq!["refs/heads/**"@]);
        GitRefs::new(self.git).for_each_ref(Some(&globs))
    }

    /// The command that lists the local and remote branches, as refs.
    pub fn list(&self) -> (command: GitCommand)
        ensures
            command@ == self.command().with_args(
                seq!["for-each-ref"@, "--format=%(refname)"@] + seq![
                    "refs/heads/**"@,
                    "refs/remotes/**"@,
                ],
            ),
    {
        let globs = list2("refs/heads/**", "refs/remotes/**");
        GitRefs::new(self.git).for_each_ref(Some(&globs))
    }

    /// The local branches that `refs` are. Fails with the first ref that is none.
    pub fn local_branches(refs: Vec<Ref>) -> (branches: Result<Vec<LocalBranchRef>, Ref>)
        ensures
            match branches {
                Ok(list) => list@.len() == refs@.len() && forall|k: int|
                    0 <= k < refs@.len() ==> (#[trigger] list@[k]).spec_as_ref() == refs@[k]@,
                Err(other) => exists|k: int|
                    0 <= k < refs@.len() && (#[trigger] refs@[k])@ == other@ && other@.kind != "heads"@
                        && forall|j: int| 0 <= j < k ==> (#[trigger] refs@[j])@.kind == "heads"@,
            },
    {
        let mut list: Vec<LocalBranchRef> = Vec::new();
        let mut k: usize = 0;
        while k < refs.len()
            invariant
                k <= refs@.len(),
                list@.len() == k,
                forall|j: int| 0 <= j < k ==> (#[trigger] list@[j]).spec_as_ref() == refs@[j]@,
            decreases refs@.len() - k,
        {
            match LocalBranchRef::try_from(refs[k].clone()) {
                Ok(branch) => {
                    list.push(branch);
                },
                Err(other) => {
                    assert(forall|j: int| 0 <= j < k ==> (#[trigger] refs@[j])@.kind == "heads"@) by {
                        assert forall|j: int| 0 <= j < k implies (#[trigger] refs@[j])@.kind
                            == "heads"@ by {
                            assert(list@[j].spec_as_ref() == refs@[j]@);
                        }
                    }
                    return Err(other);
                },
            }
            k = k + 1;
        }
        Ok(list)
    }

    /// The branches that `refs` are. Fails with the first ref that is none.
    pub fn branches(refs: Vec<Ref>) -> (branches: Result<Vec<BranchRef>, Ref>)
        ensures
            match branches {
                Ok(list) => list@.len() == refs@.len() && forall|k: int|
                    0 <= k < refs@.len() ==> BranchModel::of_ref(refs@[k]@) == Some(
                        (#[trigger] list@[k])@,
                    ),
                Err(other) => exists|k: int|
                    0 <= k < refs@.len() && (#[trigger] refs@[k])@ == other@ && BranchModel::of_ref(
                        other@,
                    ) is None && forall|j: int|
                        0 <= j < k ==> BranchModel::of_ref((#[trigger] refs@[j])@) is Some,
            },
    {
        let mut list: Vec<BranchRef> = Vec::new();
        let mut k: usize = 0;
        while k < refs.len()
            invariant
                k <= refs@.len(),
                list@.len() == k,
                forall|j: int| 0 <= j < k ==> BranchModel::of_ref(refs@[j]@) == Some((#[trigger] list@[j])@),
            decreases refs@.len() - k,
        {
            match BranchRef::try_from(refs[k].clone()) {
                Ok(branch) => {
                    list.push(branch);
                },
                Err(other) => {
                    assert forall|j: int| 0 <= j < k implies BranchModel::of_ref(
                        (#[trigger] refs@[j])@,
                    ) is Some by {
                        assert(BranchModel::of_ref(refs@[j]@) == Some(list@[j]@));
                    }
                    return Err(other);
                },
            }
            k = k + 1;
        }
        Ok(list)
    }

    /// The command that succeeds exactly where the local branch `branch` exists.
    pub fn exists_local(&self, branch: &str) -> (command: GitCommand)
        ensures
            command@ == self.command().with_args(
                seq!["show-ref"@, "--quiet"@, "--branches"@, branch@],
            ),
    {
        self.git.command_with(&list4("show-ref", "--quiet", "--branches", branch))
    }

    /// Does the given branch name exist as a local branch, a unique remote branch, or
    /// neither? `remote` is the unique remote branch of that name, if there is one;
    /// it matters only where no local branch of the name exists.
    pub fn local_or_remote(branch: &str, exists_local: bool, remote: Option<RemoteBranchRef>) -> (found:
        Option<BranchRef>)
        ensures
            match found {
                Some(named) => spec_local_or_remote(
                    branch@,
                    exists_local,
                    match remote {
                        Some(tracking) => Some(tracking@),
                        None => None,
                    },
                ) == Some(named@),
                None => !exists_local && remote is None,
            },
    {
        if exists_local {
            Some(BranchRef::Local(LocalBranchRef::new(branch.to_owned())))
        } else {
            match remote {
                // This is the implicit behavior documented in `git-worktree(1)`.
                Some(tracking) => Some(BranchRef::Remote(tracking)),
                None => None,
            }
        }
    }

    /// The branch that is checked out, of the ref that `HEAD` stands for, if it stands
    /// for one. Fails with a ref that is no local branch.
    pub fn current(head: Option<Ref>) -> (branch: Result<Option<LocalBranchRef>, Ref>)
        ensures
            match branch {
                Ok(Some(local)) => head is Some && local.spec_as_ref() == head->0@,
                Ok(None) => head is None,
                Err(other) => head is Some && other@ == head->0@ && other@.kind != "heads"@,
            },
    {
        match head {
            Some(ref_name) => match LocalBranchRef::try_from(ref_name) {
                Ok(local) => Ok(Some(local)),
                Err(other) => Err(other),
            },
            None => Ok(None),
        }
    }

    /// What names the branch that `branch` is tracking: `<branch>@{upstream}`.
    pub fn upstream_name(branch: &str) -> (name: String)
        ensures
            name@ == branch@ + "@{upstream}"@,
    {
        String::from_str(branch).concat("@{upstream}")
    }

    /// The branch that a given branch is tracking, of the ref that its upstream name
    /// stands for, if it stands for one. Fails with a ref that is no branch.
    pub fn upstream(resolved: Option<Ref>) -> (branch: Result<Option<BranchRef>, Ref>)
        ensures
            match branch {
                Ok(Some(found)) => resolved is Some && BranchModel::of_ref(resolved->0@) == Some(
                    found@,
                ),
                Ok(None) => resolved is None,
                Err(other) => resolved is Some && other@ == resolved->0@ && BranchModel::of_ref(
                    other@,
                ) is None,
            },
    {
        match resolved {
            Some(ref_name) => match BranchRef::try_from(ref_name) {
                Ok(found) => Ok(Some(found)),
                Err(other) => Err(other),
            },
            // NOTE: `branch` may not exist at all!
            None => Ok(None),
        }
    }

    /// The next step of the search for the user's preferred default branch among the
    /// preferred names `names`; see [`spec_preferred`]. `locals` are the local
    /// branches, and `answers` what is known of remote branches so far.
    ///
    /// A preferred remote, where there is one, decides the default branch by itself;
    /// this search is for a repository without one.
    pub fn preferred(names: &Vec<String>, locals: &Vec<LocalBranchRef>, answers: &Vec<Option<RemoteBranchRef>>) -> (step:
        PreferredStep)
        ensures
            step@ == spec_preferred(views(names@), local_names(locals@), remote_answers(answers@), 0),
    {
        let mut k: usize = 0;
        while k < names.len()
            invariant
                k <= names@.len(),
                spec_preferred(views(names@), local_names(locals@), remote_answers(answers@), 0)
                    == spec_preferred(
                    views(names@),
                    local_names(locals@),
                    remote_answers(answers@),
                    k as int,
                ),
            decreases names@.len() - k,
        {
            let name = names[k].as_str();
            assert(views(names@)[k as int] == name@);
            if Self::is_local(locals, name) {
                return PreferredStep::Found(
                    Some(BranchRef::Local(LocalBranchRef::new(name.to_owned()))),
                );
            }
            if k >= answers.len() {
                return PreferredStep::Ask(name.to_owned());
            }
            assert(remote_answers(answers@)[k as int] == match answers@[k as int] {
                Some(branch) => Some(branch@),
                None => None,
            });
            if let Some(remote) = &answers[k] {
                return PreferredStep::Found(Some(BranchRef::Remote(remote.clone())));
            }
            k = k + 1;
        }
        PreferredStep::Found(None)
    }

    fn is_local(locals: &Vec<LocalBranchRef>, name: &str) -> (found: bool)
        ensures
            found == local_names(locals@).contains(name@),
    {
        let mut k: usize = 0;
        while k < locals.len()
            invariant
                k <= locals@.len(),
                forall|j: int| 0 <= j < k ==> local_names(locals@)[j] != name@,
            decreases locals@.len() - k,
        {
            if str_eq(locals[k].branch_name(), name) {
                assert(local_names(locals@)[k as int] == name@);
                return true;
            }
            k = k + 1;
        }
        false
    }
}

} // verus!
