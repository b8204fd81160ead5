//! Git references.

pub mod branch;
pub mod local_branch;
pub mod name;
pub mod remote_branch;

pub use branch::BranchModel;
pub use branch::BranchRef;
pub use local_branch::LocalBranchRef;
pub use name::Ref;
pub use name::RefModel;
pub use remote_branch::RemoteBranchRef;

use vstd::prelude::*;
use vstd::string::*;
use crate::git::CommandModel;
use crate::git::commit_hash::CommitHash;
use crate::git::commitish::CommitishModel;
use crate::git::commitish::ResolvedCommitish;
use crate::git::Git;
use crate::git::GitCommand;
use crate::git::head_state::HeadKind;
use crate::git::head_state::HeadKindModel;
use crate::git::refs::name::ref_context;
use crate::git::refs::name::spec_parse_ref;
use crate::parse::Failure;
use crate::parse::ParseError;
use crate::text::has_suffix;
use crate::text::lines;
use crate::text::list2;
use crate::text::list3;
use crate::text::list4;
use crate::text::list5;
use crate::text::spec_has_suffix;
use crate::text::spec_lines;
use crate::text::spec_trim;
use crate::text::str_eq;
use crate::text::trim;
use crate::text::views;

verus! {

/// The views of the refs of `refs`.
pub open spec fn ref_views(refs: Seq<Ref>) -> Seq<RefModel> {
    refs.map_values(|name: Ref| name@)
}

/// The view of an optional ref.
pub open spec fn option_ref_view(name: Option<Ref>) -> Option<RefModel> {
    match name {
        Some(name) => Some(name@),
        None => None,
    }
}

/// What `git rev-parse --symbolic-full-name` says of `commitish`.
///
/// Nothing where the command failed or printed nothing; the ref where it printed one.
/// A detached `HEAD` is printed back as it was given, which is no ref: that is
/// nothing, too. Any other output is an error.
pub open spec fn spec_symbolic_full_name(
    commitish: Seq<char>,
    success: bool,
    stdout: Seq<char>,
) -> Result<Option<RefModel>, Failure> {
    let trimmed = spec_trim(stdout);
    if !success || trimmed.len() == 0 {
        Ok(None)
    } else {
        match spec_parse_ref(trimmed) {
            Ok(parsed) => Ok(Some(parsed)),
            Err(offset) => if spec_has_suffix(commitish, "HEAD"@) && trimmed == commitish {
                Ok(None)
            } else {
                Err(Failure { offset, context: ref_context() })
            },
        }
    }
}

/// The refs of the first `upto` lines, one ref to a line, or the first failure.
pub open spec fn spec_parse_refs(all: Seq<Seq<char>>, upto: int) -> Result<Seq<RefModel>, Failure>
    decreases upto,
{
    if upto <= 0 {
        Ok(Seq::empty())
    } else {
        match spec_parse_refs(all, upto - 1) {
            Err(failure) => Err(failure),
            Ok(refs) => match spec_parse_ref(all[upto - 1]) {
                Ok(parsed) => Ok(refs.push(parsed)),
                Err(offset) => Err(Failure { offset, context: ref_context() }),
            },
        }
    }
}

/// What `HEAD` is, of what the repository says about it: detached at its commit, or
/// on the local branch that it stands for. `None` where that is not known.
pub open spec fn spec_head_kind(
    detached: bool,
    head: Option<Seq<char>>,
    symbolic: Option<RefModel>,
) -> Option<HeadKindModel> {
    if detached {
        match head {
            Some(hash) => Some(HeadKindModel::Detached(hash)),
            None => None,
        }
    } else {
        match symbolic {
            Some(name) => if name.kind == "heads"@ {
                Some(HeadKindModel::Branch(name.name))
            } else {
                None
            },
            None => None,
        }
    }
}

/// Git methods for dealing with refs: the commands to run, and what to make of their
/// output.
#[derive(Debug)]
pub struct GitRefs<'a> {
    git: &'a Git,
}

impl<'a> GitRefs<'a> {
    /// The `git` that the commands are made of.
    pub closed spec fn command(&self) -> CommandModel {
        self.git@
    }

    /// The ref methods of `git`.
    pub fn new(git: &'a Git) -> (refs: Self)
        ensures
            refs.command() == git@,
    {
        GitRefs { git }
    }

    /// The command that shows the message of a commit.
    pub fn commit_message(&self, commit: &str) -> (command: GitCommand)
        ensures
            command@ == self.command().with_args(
                seq!["show"@, "--no-patch"@, "--format=%B"@, commit@],
            ),
    {
        self.git.command_with(&list4("show", "--no-patch", "--format=%B", commit))
    }

    /// The command that shows the `HEAD` commit hash.
    pub fn get_head(&self) -> (command: GitCommand)
        ensures
            command@ == self.command().with_args(
                seq!["rev-parse"@, "--path-format=absolute"@] + seq![
                    "--verify"@,
                    "--quiet"@,
                    "--end-of-options"@,
                    "HEAD"@,
                ],
            ),
    {
        self.parse("HEAD")
    }

    /// The command that parses a `commitish` into a commit hash.
    pub fn parse(&self, commitish: &str) -> (command: GitCommand)
        ensures
            command@ == self.command().with_args(
                seq!["rev-parse"@, "--path-format=absolute"@] + seq![
                    "--verify"@,
                    "--quiet"@,
                    "--end-of-options"@,
                    commitish@,
                ],
            ),
    {
        self.git.rev_parse_with(&list4("--verify", "--quiet", "--end-of-options", commitish))
    }

    /// The commit hash that the command of [`Self::parse`] printed, if it succeeded.
    pub fn parse_commit(success: bool, stdout: &str) -> (commit: Option<CommitHash>)
        ensures
            match commit {
                Some(hash) => success && hash@ == spec_trim(stdout@),
                None => !success,
            },
    {
        if success {
            Some(CommitHash::new(trim(stdout).to_owned()))
        } else {
            None
        }
    }

    /// The command `git rev-parse --symbolic-full-name`.
    pub fn rev_parse_symbolic_full_name(&self, commitish: &str) -> (command: GitCommand)
        ensures
            command@ == self.command().with_args(
                seq!["rev-parse"@, "--path-format=absolute"@] + seq![
                    "--symbolic-full-name"@,
                    "--verify"@,
                    "--quiet"@,
                    "--end-of-options"@,
                    commitish@,
                ],
            ),
    {
        self.git.rev_parse_with(
            &list5("--symbolic-full-name", "--verify", "--quiet", "--end-of-options", commitish),
        )
    }

    /// The ref that the command of [`Self::rev_parse_symbolic_full_name`] found for
    /// `commitish`; see [`spec_symbolic_full_name`].
    pub fn symbolic_full_name(commitish: &str, success: bool, stdout: &str) -> (found: Result<
        Option<Ref>,
        ParseError,
    >)
        ensures
            match found {
                Ok(name) => spec_symbolic_full_name(commitish@, success, stdout@) == Ok::<_, Failure>(
                    option_ref_view(name),
                ),
                Err(error) => spec_symbolic_full_name(commitish@, success, stdout@) == Err::<
                    Option<RefModel>,
                    _,
                >(error@),
            },
    {
        if !success {
            return Ok(None);
        }
        let trimmed = trim(stdout);
        if trimmed.unicode_len() == 0 {
            return Ok(None);
        }
        match Ref::parser(trimmed) {
            Ok(parsed) => Ok(Some(parsed)),
            Err(error) => {
                if has_suffix(commitish, "HEAD") && str_eq(trimmed, commitish) {
                    Ok(None)
                } else {
                    Err(error)
                }
            },
        }
    }

    /// Determine if a given `<commit-ish>` refers to a commit or a symbolic ref name:
    /// the ref that it names, if it names one, and else the commit. `None` where it
    /// is neither.
    pub fn resolve_commitish(ref_name: Option<Ref>, commit: Option<CommitHash>) -> (resolved: Option<
        ResolvedCommitish,
    >)
        ensures
            match resolved {
                Some(commitish) => commitish@ == match ref_name {
                    Some(name) => CommitishModel::Ref(name@),
                    None => CommitishModel::Commit(commit->0@),
                } && (ref_name is Some || commit is Some),
                None => ref_name is None && commit is None,
            },
    {
        match ref_name {
            Some(name) => Some(ResolvedCommitish::Ref(name)),
            None => match commit {
                Some(hash) => Some(ResolvedCommitish::Commit(hash)),
                None => None,
            },
        }
    }

    /// The command that fails exactly where `HEAD` is detached.
    pub fn is_head_detached(&self) -> (command: GitCommand)
        ensures
            command@ == self.command().with_args(seq!["symbolic-ref"@, "--quiet"@, "HEAD"@]),
    {
        self.git.command_with(&list3("symbolic-ref", "--quiet", "HEAD"))
    }

    /// Figure out what's going on with `HEAD`; see [`spec_head_kind`].
    pub fn head_kind(detached: bool, head: Option<CommitHash>, symbolic: Option<Ref>) -> (kind: Option<
        HeadKind,
    >)
        ensures
            match kind {
                Some(found) => spec_head_kind(
                    detached,
                    match head {
                        Some(hash) => Some(hash@),
                        None => None,
                    },
                    option_ref_view(symbolic),
                ) == Some(found@),
                None => spec_head_kind(
                    detached,
                    match head {
                        Some(hash) => Some(hash@),
                        None => None,
                    },
                    option_ref_view(symbolic),
                ) is None,
            },
    {
        if detached {
            match head {
                Some(hash) => Some(HeadKind::Detached(hash)),
                None => None,
            }
        } else {
            match symbolic {
                Some(name) => match LocalBranchRef::try_from(name) {
                    Ok(branch) => Some(HeadKind::Branch(branch)),
                    Err(_) => None,
                },
                None => None,
            }
        }
    }

    /// The command that lists the refs that match one of `globs`, or all refs.
    pub fn for_each_ref(&self, globs: Option<&Vec<String>>) -> (command: GitCommand)
        ensures
            command@ == self.command().with_args(
                seq!["for-each-ref"@, "--format=%(refname)"@] + match globs {
                    Some(list) => views(list@),
                    None => Seq::empty(),
                },
            ),
    {
        let command = self.git.command_with(&list2("for-each-ref", "--format=%(refname)"));
        let command = match globs {
            Some(list) => command.args(list),
            None => command,
        };
        assert(command@.args =~= self.command().args + (seq![
            "for-each-ref"@,
            "--format=%(refname)"@,
        ] + match globs {
            Some(list) => views(list@),
            None => Seq::empty(),
        }));
        command
    }

    /// The refs that the command of [`Self::for_each_ref`] printed, one to a line.
    pub fn parse_refs(stdout: &str) -> (refs: Result<Vec<Ref>, ParseError>)
        ensures
            match refs {
                Ok(list) => spec_parse_refs(
                    spec_lines(stdout@),
                    spec_lines(stdout@).len() as int,
                ) == Ok::<_, Failure>(ref_views(list@)),
                Err(error) => spec_parse_refs(
                    spec_lines(stdout@),
                    spec_lines(stdout@).len() as int,
                ) == Err::<Seq<RefModel>, _>(error@),
            },
    {
        let all = lines(stdout);
        let mut refs: Vec<Ref> = Vec::new();
        let mut k: usize = 0;
        assert(ref_views(refs@) =~= Seq::empty());
        while k < all.len()
            invariant
                k <= all@.len(),
                views(all@) == spec_lines(stdout@),
                spec_parse_refs(spec_lines(stdout@), k as int) == Ok::<_, Failure>(ref_views(refs@)),
            decreases all@.len() - k,
        {
            assert(views(all@)[k as int] == all@[k as int]@);
            match Ref::parser(all[k].as_str()) {
                Ok(parsed) => {
                    let ghost before = ref_views(refs@);
                    refs.push(parsed);
                    assert(ref_views(refs@) =~= before.push(parsed@));
                },
                Err(error) => {
                    proof {
                        lemma_parse_refs_stays_failed(
                            spec_lines(stdout@),
                            k + 1,
                            spec_lines(stdout@).len() as int,
                        );
                    }
                    return Err(error);
                },
            }
            k = k + 1;
        }
        Ok(refs)
    }
}

/// Lines that follow a failure do not change it.
pub proof fn lemma_parse_refs_stays_failed(all: Seq<Seq<char>>, at: int, upto: int)
    requires
        0 <= at <= upto,
        spec_parse_refs(all, at) is Err,
    ensures
        spec_parse_refs(all, upto) == spec_parse_refs(all, at),
    decreases upto - at,
{
    if at < upto {
        lemma_parse_refs_stays_failed(all, at, upto - 1);
    }
}

} // verus!
