//! Remotes of a repository: the commands to run, and what to decide of the answers.

use vstd::prelude::*;
use vstd::string::*;
use crate::git::CommandModel;
use crate::git::config::GitConfig;
use crate::git::Git;
use crate::git::GitCommand;
use crate::git::refs::GitRefs;
use crate::git::refs::local_branch::LocalBranchRef;
use crate::git::refs::name::Ref;
use crate::git::refs::name::ref_context;
use crate::git::refs::name::RefModel;
use crate::git::refs::name::spec_parse_ref;
use crate::git::refs::ref_views;
use crate::git::refs::remote_branch::has_slash;
use crate::git::refs::remote_branch::RemoteBranchRef;
use crate::git::refs::remote_branch::spec_remote_of;
use crate::parse::ContextModel;
use crate::parse::desc;
use crate::parse::Failure;
use crate::parse::ParseError;
use crate::text::contains;
use crate::text::find_from;
use crate::text::lines;
use crate::text::list2;
use crate::text::list3;
use crate::text::list4;
use crate::text::literal_at;
use crate::text::push_str;
use crate::text::slice_to_string;
use crate::text::spec_find_from;
use crate::text::spec_lines;
use crate::text::spec_matches_at;
use crate::text::spec_trim_end;
use crate::text::str_eq;
use crate::text::to_chars;
use crate::text::trim_end;
use crate::text::views;

verus! {

/// Why the default branch of a remote is not known.
#[derive(Debug, PartialEq, Eq)]
pub enum RemoteError {
    /// The output is not what was asked for.
    Parse(ParseError),
    /// The ref is no branch of the kind that was asked for.
    NotABranch(Ref),
}

/// The ref at the start of the output of `git ls-remote --symref`: `ref: `, the ref up
/// to a tab, the tab, and whatever follows.
pub open spec fn spec_parse_ls_remote_symref(s: Seq<char>) -> Result<RefModel, Failure> {
    let start = "ref: "@.len() as int;
    let tab = spec_find_from(s, start, '\t');
    if !spec_matches_at(s, 0, "ref: "@) {
        Err(Failure { offset: 0, context: ls_remote_context() })
    } else if tab == start {
        Err(Failure { offset: start, context: ls_remote_context() })
    } else {
        match spec_parse_ref(s.subrange(start, tab)) {
            Err(offset) => Err(Failure { offset: start + offset, context: ref_context() }),
            Ok(parsed) => if tab >= s.len() {
                Err(Failure { offset: s.len() as int, context: ls_remote_context() })
            } else {
                Ok(parsed)
            },
        }
    }
}

/// The context of a failure of the `ls-remote` grammar.
pub open spec fn ls_remote_context() -> ContextModel {
    ContextModel::Description("a symbolic ref of `git ls-remote`"@)
}

/// The remotes of `wanted` that are among `all`, in the order of `wanted`, each once.
pub open spec fn spec_preferred_remotes(all: Seq<Seq<char>>, wanted: Seq<Seq<char>>) -> Seq<Seq<char>>
    decreases wanted.len(),
{
    if wanted.len() == 0 {
        Seq::empty()
    } else {
        let before = spec_preferred_remotes(all, wanted.drop_last());
        if all.contains(wanted.last()) && !before.contains(wanted.last()) {
            before.push(wanted.last())
        } else {
            before
        }
    }
}

/// The remotes in the user's order of preference: the default remote of checkouts
/// first, then the configured remotes; only remotes that exist, each once.
pub open spec fn spec_list_preferred(
    all: Seq<Seq<char>>,
    default_remote: Option<Seq<char>>,
    preferred: Seq<Seq<char>>,
) -> Seq<Seq<char>> {
    spec_preferred_remotes(
        all,
        match default_remote {
            Some(remote) => seq![remote] + preferred,
            None => preferred,
        },
    )
}

/// The position at or after `from` of the first ref of `refs` that is a branch on
/// the remote `remote`, or `refs.len()`.
pub open spec fn spec_index_on_remote(refs: Seq<RefModel>, remote: Seq<char>, from: int) -> int
    decreases refs.len() - from,
{
    if from < 0 || from >= refs.len() {
        refs.len() as int
    } else if refs[from].kind == "remotes"@ && has_slash(refs[from].name) && spec_remote_of(
        refs[from].name,
    ) == remote {
        from
    } else {
        spec_index_on_remote(refs, remote, from + 1)
    }
}

/// The unique remote branch among `exists_on_remotes`, the remote branches of one
/// branch name, by its qualified name: the only one, where there is one; of several,
/// the first one on the default remote of checkouts, if that is set.
pub open spec fn spec_for_branch(
    exists_on_remotes: Seq<RefModel>,
    default_remote: Option<Seq<char>>,
) -> Option<Seq<char>> {
    if exists_on_remotes.len() == 0 {
        None
    } else if exists_on_remotes.len() == 1 {
        if exists_on_remotes[0].kind == "remotes"@ && has_slash(exists_on_remotes[0].name) {
            Some(exists_on_remotes[0].name)
        } else {
            None
        }
    } else {
        match default_remote {
            Some(remote) => {
                let at = spec_index_on_remote(exists_on_remotes, remote, 0);
                if at < exists_on_remotes.len() {
                    Some(exists_on_remotes[at].name)
                } else {
                    None
                }
            },
            None => None,
        }
    }
}

/// Git methods for dealing with remotes.
#[derive(Debug)]
pub struct GitRemote<'a> {
    git: &'a Git,
}

impl<'a> GitRemote<'a> {
    /// The `git` that the commands are made of.
    pub closed spec fn command(&self) -> CommandModel {
        self.git@
    }

    /// The remote methods of `git`.
    pub fn new(git: &'a Git) -> (remote: Self)
        ensures
            remote.command() == git@,
    {
        GitRemote { git }
    }

    /// The command that lists all `git remote`s, one to a line.
    pub fn list(&self) -> (command: GitCommand)
        ensures
            command@ == self.command().with_args(seq!["remote"@]),
    {
        self.git.command().arg("remote")
    }

    /// The remotes that the command of [`Self::list`] printed.
    pub fn parse_list(stdout: &str) -> (remotes: Vec<String>)
        ensures
            views(remotes@) == spec_lines(stdout@),
    {
        lines(stdout)
    }

    /// The command that shows the (push) URL for the given remote.
    pub fn get_push_url(&self, remote: &str) -> (command: GitCommand)
        ensures
            command@ == self.command().with_args(seq!["remote"@, "get-url"@, "--push"@, remote@]),
    {
        self.git.command_with(&list4("remote", "get-url", "--push", remote))
    }

    /// The command that shows what `refs/remotes/<remote>/HEAD` stands for.
    pub fn default_branch_symbolic_ref(&self, remote: &str) -> (command: GitCommand)
        ensures
            command@ == self.command().with_args(
                seq!["symbolic-ref"@, "refs/remotes/"@ + remote@ + "/HEAD"@],
            ),
    {
        let mut head = String::from_str("refs/remotes/");
        head.append(remote);
        head.append("/HEAD");
        self.git.command_with(&list2("symbolic-ref", head.as_str()))
    }

    /// The default branch that the command of [`Self::default_branch_symbolic_ref`]
    /// printed: a remote-tracking branch, with whitespace after it.
    pub fn parse_symbolic_ref(stdout: &str) -> (branch: Result<RemoteBranchRef, RemoteError>)
        ensures
            match branch {
                Ok(found) => spec_parse_ref(spec_trim_end(stdout@)) == Ok::<_, int>(found.spec_as_ref()),
                Err(RemoteError::Parse(error)) => spec_parse_ref(spec_trim_end(stdout@)) == Err::<
                    RefModel,
                    _,
                >(error@.offset) && error@.context == ref_context(),
                Err(RemoteError::NotABranch(other)) => spec_parse_ref(spec_trim_end(stdout@)) == Ok::<
                    _,
                    int,
                >(other@) && !(other@.kind == "remotes"@ && has_slash(other@.name)),
            },
    {
        match Ref::parser(trim_end(stdout)) {
            Err(error) => Err(RemoteError::Parse(error)),
            Ok(ref_name) => match RemoteBranchRef::try_from(ref_name) {
                Ok(remote_branch) => Ok(remote_branch),
                Err(other) => Err(RemoteError::NotABranch(other)),
            },
        }
    }

    /// The command that asks the remote for what its `HEAD` stands for.
    pub fn default_branch_ls_remote(&self, remote: &str) -> (command: GitCommand)
        ensures
            command@ == self.command().with_args(
                seq!["ls-remote"@, "--symref"@, remote@, "HEAD"@],
            ),
    {
        self.git.command_with(&list4("ls-remote", "--symref", remote, "HEAD"))
    }

    /// Parse a symbolic ref from the start of `git ls-remote --symref` output.
    pub fn parse_ls_remote_symref(stdout: &str) -> (parsed: Result<Ref, ParseError>)
        ensures
            match parsed {
                Ok(found) => spec_parse_ls_remote_symref(stdout@) == Ok::<_, Failure>(found@),
                Err(error) => spec_parse_ls_remote_symref(stdout@) == Err::<RefModel, _>(error@),
            },
    {
        let chars = to_chars(stdout);
        let start = match literal_at(&chars, 0, "ref: ") {
            Some(next) => next,
            None => {
                return Err(ParseError::new(0, desc("a symbolic ref of `git ls-remote`")));
            },
        };
        let tab = find_from(&chars, start, '\t');
        if tab == start {
            return Err(ParseError::new(start, desc("a symbolic ref of `git ls-remote`")));
        }
        let name = slice_to_string(stdout, start, tab);
        proof {
            crate::git::refs::name::lemma_parse_then_qualified(name@);
        }
        match Ref::parser(name.as_str()) {
            Err(error) => Err(ParseError::new(start + error.offset, desc("a ref name"))),
            Ok(found) => {
                if tab >= chars.len() {
                    Err(ParseError::new(chars.len(), desc("a symbolic ref of `git ls-remote`")))
                } else {
                    Ok(found)
                }
            },
        }
    }

    /// The default branch of `remote` that the command of
    /// [`Self::default_branch_ls_remote`] printed: the local branch of the remote, as
    /// a remote-tracking branch here.
    pub fn parse_ls_remote(remote: &str, stdout: &str) -> (branch: Result<RemoteBranchRef, RemoteError>)
        ensures
            match branch {
                Ok(found) => spec_parse_ls_remote_symref(stdout@) matches Ok(parsed) && parsed.kind
                    == "heads"@ && found@ == remote@ + "/"@ + parsed.name,
                Err(RemoteError::Parse(error)) => spec_parse_ls_remote_symref(stdout@) == Err::<
                    RefModel,
                    _,
                >(error@),
                Err(RemoteError::NotABranch(other)) => spec_parse_ls_remote_symref(stdout@) == Ok::<
                    _,
                    Failure,
                >(other@) && other@.kind != "heads"@,
            },
    {
        match Self::parse_ls_remote_symref(stdout) {
            Err(error) => Err(RemoteError::Parse(error)),
            Ok(ref_name) => match LocalBranchRef::try_from(ref_name) {
                Ok(local_branch) => Ok(local_branch.on_remote(remote)),
                Err(other) => Err(RemoteError::NotABranch(other)),
            },
        }
    }

    /// The command that writes down the default branch of `remote`, so that the
    /// remote need not be asked next time.
    pub fn store_default_branch(&self, remote: &str, branch: &RemoteBranchRef) -> (command: GitCommand)
        ensures
            command@ == self.command().with_args(
                seq![
                    "symbolic-ref"@,
                    "refs/remotes/"@ + remote@ + "/HEAD"@,
                    "refs/remotes/"@ + remote@ + "/"@ + branch@,
                ],
            ),
    {
        let mut head = String::from_str("refs/remotes/");
        head.append(remote);
        head.append("/HEAD");
        let mut target = String::from_str("refs/remotes/");
        target.append(remote);
        target.append("/");
        target.append(branch.qualified_branch_name());
        self.git.command_with(&list3("symbolic-ref", head.as_str(), target.as_str()))
    }

    /// The command that gets the `checkout.defaultRemote` setting.
    pub fn get_default(&self) -> (command: GitCommand)
        ensures
            command@ == self.command().with_args(
                seq!["config"@, "--get"@, "--null"@, "checkout.defaultRemote"@],
            ),
    {
        GitConfig::new(self.git).get("checkout.defaultRemote")
    }

    /// The command that lists the remote branches named `branch`, on any remote.
    pub fn for_branch(&self, branch: &str) -> (command: GitCommand)
        ensures
            command@ == self.command().with_args(
                seq!["for-each-ref"@, "--format=%(refname)"@] + seq!["refs/remotes/*/"@ + branch@],
            ),
    {
        let mut globs: Vec<String> = Vec::new();
        globs.push(String::from_str("refs/remotes/*/").concat(branch));
        assert(views(globs@) =~= seq!["refs/remotes/*/"@ + branch@]);
        GitRefs::new(self.git).for_each_ref(Some(&globs))
    }

    /// Find a unique remote branch by name, among the refs that the command of
    /// [`Self::for_branch`] listed; see [`spec_for_branch`]. `default_remote` is the
    /// `checkout.defaultRemote` setting; it matters only for more than one ref.
    ///
    /// This is (hopefully!) how Git determines which remote-tracking branch you want
    /// when you do a `git switch` or `git worktree add`.
    pub fn unique_for_branch(exists_on_remotes: Vec<Ref>, default_remote: Option<&str>) -> (found: Option<
        RemoteBranchRef,
    >)
        ensures
            match found {
                Some(branch) => spec_for_branch(
                    ref_views(exists_on_remotes@),
                    match default_remote {
                        Some(remote) => Some(remote@),
                        None => None,
                    },
                ) == Some(branch@),
                None => spec_for_branch(
                    ref_views(exists_on_remotes@),
                    match default_remote {
                        Some(remote) => Some(remote@),
                        None => None,
                    },
                ) is None,
            },
    {
        let ghost refs = ref_views(exists_on_remotes@);
        if exists_on_remotes.len() == 0 {
            return None;
        }
        if exists_on_remotes.len() == 1 {
            assert(refs[0] == exists_on_remotes@[0]@);
            return match RemoteBranchRef::try_from(exists_on_remotes[0].clone()) {
                Ok(branch) => Some(branch),
                Err(_) => None,
            };
        }
        let remote = match default_remote {
            Some(remote) => remote,
            None => {
                return None;
            },
        };
        let mut k: usize = 0;
        while k < exists_on_remotes.len()
            invariant
                k <= exists_on_remotes@.len(),
                exists_on_remotes@.len() >= 2,
                default_remote == Some(remote),
                refs == ref_views(exists_on_remotes@),
                spec_index_on_remote(refs, remote@, 0) == spec_index_on_remote(refs, remote@, k as int),
            decreases exists_on_remotes@.len() - k,
        {
            assert(refs[k as int] == exists_on_remotes@[k as int]@);
            if let Ok(branch) = RemoteBranchRef::try_from(exists_on_remotes[k].clone()) {
                if str_eq(branch.remote().as_str(), remote) {
                    assert(refs[k as int] == branch.spec_as_ref());
                    assert(spec_index_on_remote(refs, remote@, k as int) == k);
                    return Some(branch);
                }
            }
            k = k + 1;
        }
        None
    }

    /// The command that fetches a refspec, or everything, from a remote.
    pub fn fetch(&self, remote: &str, refspec: Option<&str>) -> (command: GitCommand)
        ensures
            command@ == self.command().with_args(
                seq!["fetch"@, remote@] + match refspec {
                    Some(spec) => seq![spec@],
                    None => Seq::empty(),
                },
            ),
    {
        let mut args = list2("fetch", remote);
        if let Some(spec) = refspec {
            push_str(&mut args, spec);
        }
        assert(views(args@) =~= seq!["fetch"@, remote@] + match refspec {
            Some(spec) => seq![spec@],
            None => Seq::empty(),
        });
        self.git.command_with(&args)
    }

    /// A list of remotes in the user's preference order; see [`spec_list_preferred`].
    /// `all_remotes` are the remotes of the repository, `default_remote` is the
    /// `checkout.defaultRemote` setting, and `preferred` are the configured remotes.
    pub fn list_preferred(all_remotes: &Vec<String>, default_remote: Option<&str>, preferred: &Vec<String>) -> (sorted:
        Vec<String>)
        ensures
            views(sorted@) == spec_list_preferred(
                views(all_remotes@),
                match default_remote {
                    Some(remote) => Some(remote@),
                    None => None,
                },
                views(preferred@),
            ),
    {
        let mut wanted: Vec<String> = Vec::new();
        if let Some(remote) = default_remote {
            push_str(&mut wanted, remote);
        }
        crate::text::extend_strings(&mut wanted, preferred);
        assert(views(wanted@) =~= match default_remote {
            Some(remote) => seq![remote@] + views(preferred@),
            None => views(preferred@),
        });
        let mut sorted: Vec<String> = Vec::new();
        let mut k: usize = 0;
        assert(views(wanted@).take(0) =~= Seq::<Seq<char>>::empty());
        assert(views(sorted@) =~= Seq::<Seq<char>>::empty());
        while k < wanted.len()
            invariant
                k <= wanted@.len(),
                views(sorted@) == spec_preferred_remotes(views(all_remotes@), views(wanted@).take(k as int)),
            decreases wanted@.len() - k,
        {
            proof {
                let done = views(wanted@).take(k + 1);
                assert(done.drop_last() =~= views(wanted@).take(k as int));
                assert(done.last() == wanted@[k as int]@);
            }
            let remote = wanted[k].as_str();
            if contains(all_remotes, remote) && !contains(&sorted, remote) {
                push_str(&mut sorted, remote);
            }
            k = k + 1;
        }
        assert(views(wanted@).take(k as int) =~= views(wanted@));
        sorted
    }

    /// The user's preferred remote, if any: the first one of [`Self::list_preferred`].
    pub fn preferred(all_remotes: &Vec<String>, default_remote: Option<&str>, preferred: &Vec<String>) -> (remote:
        Option<String>)
        ensures
            match remote {
                Some(name) => spec_list_preferred(
                    views(all_remotes@),
                    match default_remote {
                        Some(remote) => Some(remote@),
                        None => None,
                    },
                    views(preferred@),
                ).len() > 0 && name@ == spec_list_preferred(
                    views(all_remotes@),
                    match default_remote {
                        Some(remote) => Some(remote@),
                        None => None,
                    },
                    views(preferred@),
                )[0],
                None => spec_list_preferred(
                    views(all_remotes@),
                    match default_remote {
                        Some(remote) => Some(remote@),
                        None => None,
                    },
                    views(preferred@),
                ).len() == 0,
            },
    {
        let sorted = Self::list_preferred(all_remotes, default_remote, preferred);
        if sorted.len() > 0 {
            assert(views(sorted@)[0] == sorted@[0]@);
            Some(sorted[0].clone())
        } else {
            None
        }
    }
}

} // verus!
