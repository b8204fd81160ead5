//! Worktrees: their listing, their names and the commands that make them.

pub mod parse;
pub mod resolve_unique_names;

pub use parse::HeadModel;
pub use parse::Worktree;
pub use parse::WorktreeHead;
pub use parse::WorktreeModel;
pub use parse::Worktrees;
pub use resolve_unique_names::resolve_unique_worktree_names;
pub use resolve_unique_names::NoNameError;
pub use resolve_unique_names::RenamedWorktree;
pub use resolve_unique_names::ResolveUniqueNameOpts;

use vstd::prelude::*;
use vstd::string::*;
use crate::config::apply_all;
use crate::config::BranchReplacement;
use crate::config::replacement_views;
use crate::config::ReplacementModel;
use crate::config::spec_apply_all;
use crate::final_component::final_component;
use crate::final_component::spec_final_component;
use crate::git::AppGit;
use crate::git::CommandModel;
use crate::git::GitCommand;
use crate::git::refs::branch::BranchRef;
use crate::git::refs::local_branch::LocalBranchRef;
use crate::path::join;
use crate::path::parent;
use crate::path::path_join;
use crate::path::path_parent;
use crate::text::list2;
use crate::text::push_str;
use crate::text::spec_trim;
use crate::text::str_eq;
use crate::text::trim;
use crate::text::views;

verus! {

/// The directory name for the worktree of the branch `branch`: the final component
/// of the branch name after the configured rules, if there are any.
pub open spec fn spec_dirname_for(rules: Seq<ReplacementModel>, branch: Seq<char>) -> Seq<char> {
    spec_final_component(spec_apply_all(rules, branch))
}

/// The directory name, below the directory that holds the worktrees, for the
/// worktree of the branch `branch`.
///
/// To convert a repository `~/puppy` with the default branch `main`, this gives
/// `main`, for a worktree at `~/puppy/main`. Without rules, the branch `doggy/puppy`
/// gets the directory name `puppy`.
pub fn dirname_for(rules: &Vec<BranchReplacement>, branch: &str) -> (dirname: String)
    ensures
        dirname@ == spec_dirname_for(replacement_views(rules@), branch@),
{
    final_component(apply_all(rules, branch).as_str()).to_owned()
}

/// The branch name of an optional branch.
pub open spec fn option_branch_name(branch: Option<&BranchRef>) -> Option<Seq<char>> {
    match branch {
        Some(branch) => Some(branch@.branch_name()),
        None => None,
    }
}

/// The position of the first worktree of `list` on the preferred branch, or
/// `list.len()` where there is none, or no preferred branch.
pub open spec fn spec_preferred_index(list: Seq<WorktreeModel>, preferred: Option<Seq<char>>) -> int {
    match preferred {
        Some(branch) => parse::spec_index_on_branch(list, branch, 0),
        None => list.len() as int,
    }
}

/// The path of some worktree to work in: the first worktree on the preferred branch;
/// else, where the main worktree is bare and there are others, the first one that is
/// not bare; else the main worktree.
pub open spec fn spec_find_some(list: Seq<WorktreeModel>, preferred: Option<Seq<char>>) -> Seq<char> {
    let on_branch = spec_preferred_index(list, preferred);
    let not_bare = parse::spec_index_not_bare(list, 0);
    if on_branch < list.len() {
        list[on_branch].path
    } else if list[0].head is Bare && list.len() > 1 && not_bare < list.len() {
        list[not_bare].path
    } else {
        list[0].path
    }
}

/// Options for `git worktree add`.
#[derive(Debug)]
pub struct AddWorktreeOpts<'a> {
    /// If true, use `-B` instead of `-b` for `create_branch`. Default false.
    pub force_branch: bool,
    /// Create a new branch.
    pub create_branch: Option<&'a LocalBranchRef>,
    /// If false, use `--no-checkout`. Default true.
    pub checkout: bool,
    /// If true, use `--guess-remote`. Default false.
    pub guess_remote: bool,
    /// If true, use `--track`. Default false.
    pub track: bool,
    /// The start point for the new worktree.
    pub start_point: Option<&'a str>,
    /// If true, use `--detach`. Default false.
    pub detach: bool,
}

/// The mathematical value of [`AddWorktreeOpts`].
pub struct AddOptsModel {
    pub force_branch: bool,
    pub create_branch: Option<Seq<char>>,
    pub checkout: bool,
    pub guess_remote: bool,
    pub track: bool,
    pub start_point: Option<Seq<char>>,
    pub detach: bool,
}

impl AddOptsModel {
    /// The options that `git worktree add` has by itself.
    pub open spec fn default() -> AddOptsModel {
        AddOptsModel {
            force_branch: false,
            create_branch: None,
            checkout: true,
            guess_remote: false,
            track: false,
            start_point: None,
            detach: false,
        }
    }

    /// The arguments that create a branch: `-b <branch>` or, forced, `-B <branch>`.
    pub open spec fn branch_args(self) -> Seq<Seq<char>> {
        match self.create_branch {
            Some(branch) => seq![
                if self.force_branch {
                    "-B"@
                } else {
                    "-b"@
                },
                branch,
            ],
            None => Seq::empty(),
        }
    }

    /// The start point as an argument, if there is one.
    pub open spec fn start_args(self) -> Seq<Seq<char>> {
        match self.start_point {
            Some(start) => seq![start],
            None => Seq::empty(),
        }
    }

    /// The arguments of `git worktree add [--detach] [-b|-B <branch>] [--no-checkout]
    /// [--guess-remote] [--track] <path> [<start-point>]`.
    pub open spec fn args(self, path: Seq<char>) -> Seq<Seq<char>> {
        seq!["worktree"@, "add"@] + flag(self.detach, "--detach"@) + self.branch_args() + flag(
            !self.checkout,
            "--no-checkout"@,
        ) + flag(self.guess_remote, "--guess-remote"@) + flag(self.track, "--track"@) + seq![path]
            + self.start_args()
    }
}

/// The argument `text` where `wanted` holds, and nothing else.
pub open spec fn flag(wanted: bool, text: Seq<char>) -> Seq<Seq<char>> {
    if wanted {
        seq![text]
    } else {
        Seq::empty()
    }
}

impl<'a> View for AddWorktreeOpts<'a> {
    type V = AddOptsModel;

    open spec fn view(&self) -> AddOptsModel {
        AddOptsModel {
            force_branch: self.force_branch,
            create_branch: match self.create_branch {
                Some(branch) => Some(branch@),
                None => None,
            },
            checkout: self.checkout,
            guess_remote: self.guess_remote,
            track: self.track,
            start_point: match self.start_point {
                Some(start) => Some(start@),
                None => None,
            },
            detach: self.detach,
        }
    }
}

impl<'a> Default for AddWorktreeOpts<'a> {
    fn default() -> (options: Self)
        ensures
            options@ == AddOptsModel::default(),
    {
        AddWorktreeOpts {
            force_branch: false,
            create_branch: None,
            checkout: true,
            guess_remote: false,
            track: false,
            start_point: None,
            detach: false,
        }
    }
}

fn push_flag(args: &mut Vec<String>, wanted: bool, text: &str)
    ensures
        views(final(args)@) == views(old(args)@) + flag(wanted, text@),
{
    if wanted {
        push_str(args, text);
    }
    assert(views(args@) =~= views(old(args)@) + flag(wanted, text@));
}

fn push_branch(args: &mut Vec<String>, options: &AddWorktreeOpts<'_>)
    ensures
        views(final(args)@) == views(old(args)@) + options@.branch_args(),
{
    if let Some(branch) = options.create_branch {
        push_str(
            args,
            if options.force_branch {
                "-B"
            } else {
                "-b"
            },
        );
        push_str(args, branch.branch_name());
    }
    assert(views(args@) =~= views(old(args)@) + options@.branch_args());
}

fn push_start(args: &mut Vec<String>, options: &AddWorktreeOpts<'_>)
    ensures
        views(final(args)@) == views(old(args)@) + options@.start_args(),
{
    if let Some(start_point) = options.start_point {
        push_str(args, start_point);
    }
    assert(views(args@) =~= views(old(args)@) + options@.start_args());
}

/// Git methods for dealing with worktrees: the commands to run, and what to make of
/// their output.
#[derive(Debug)]
pub struct GitWorktree<'a> {
    git: &'a AppGit<'a>,
}

impl<'a> GitWorktree<'a> {
    /// The `git` that the commands are made of.
    pub closed spec fn command(&self) -> CommandModel {
        self.git.git@
    }

    /// The configured rules that make a directory name of a branch name.
    pub closed spec fn rules(&self) -> Seq<ReplacementModel> {
        replacement_views(self.git.config.add.branch_replacements@)
    }

    /// The worktree methods of `git`, with the rules of its configuration.
    pub fn new(git: &'a AppGit<'a>) -> (worktree: Self)
        ensures
            worktree.command() == git.git@,
            worktree.rules() == replacement_views(git.config.add.branch_replacements@),
    {
        GitWorktree { git }
    }

    /// The command that lists the worktrees, for [`Worktrees::parse`].
    pub fn list(&self) -> (command: GitCommand)
        ensures
            command@ == self.command().with_args(
                seq!["worktree"@, "list"@, "--porcelain"@, "-z"@],
            ),
    {
        let command = self.git.git.command().arg("worktree").arg("list").arg("--porcelain").arg("-z");
        assert(command@.args =~= self.command().args + seq![
            "worktree"@,
            "list"@,
            "--porcelain"@,
            "-z"@,
        ]);
        command
    }

    /// The worktree container directory: the parent of the main worktree, which is
    /// usually where the other worktrees are as well. `None` where the main worktree
    /// has no parent.
    pub fn container(&self, main: &Worktree) -> (container: Option<String>)
        ensures
            match container {
                Some(path) => path_parent(main@.path) == Some(path@),
                None => path_parent(main@.path) is None,
            },
    {
        parent(main.path.as_str())
    }

    /// The command that tells whether we are inside a working tree. It says no for a
    /// bare worktree like a `.git` directory.
    pub fn is_inside(&self) -> (command: GitCommand)
        ensures
            command@ == self.command().with_args(
                seq!["rev-parse"@, "--path-format=absolute"@, "--is-inside-work-tree"@],
            ),
    {
        let command = self.git.git.rev_parse_command().arg("--is-inside-work-tree");
        assert(command@.args =~= self.command().args + seq![
            "rev-parse"@,
            "--path-format=absolute"@,
            "--is-inside-work-tree"@,
        ]);
        command
    }

    /// What the answer of [`Self::is_inside`] says: `true` or `false`, with
    /// whitespace around it. `None` for another answer.
    pub fn parse_is_inside(stdout: &str) -> (inside: Option<bool>)
        ensures
            inside == if spec_trim(stdout@) == "true"@ {
                Some(true)
            } else if spec_trim(stdout@) == "false"@ {
                Some(false)
            } else {
                None
            },
    {
        let answer = trim(stdout);
        if str_eq(answer, "true") {
            Some(true)
        } else if str_eq(answer, "false") {
            Some(false)
        } else {
            None
        }
    }

    /// The command that shows the root of this worktree. It fails outside a worktree.
    pub fn root(&self) -> (command: GitCommand)
        ensures
            command@ == self.command().with_args(
                seq!["rev-parse"@, "--path-format=absolute"@, "--show-toplevel"@],
            ),
    {
        let command = self.git.git.rev_parse_command().arg("--show-toplevel");
        assert(command@.args =~= self.command().args + seq![
            "rev-parse"@,
            "--path-format=absolute"@,
            "--show-toplevel"@,
        ]);
        command
    }

    /// The command `git worktree add` for a worktree at `path`.
    pub fn add_command(&self, path: &str, options: &AddWorktreeOpts<'_>) -> (command: GitCommand)
        ensures
            command@ == self.command().with_args(options@.args(path@)),
    {
        let mut args = list2("worktree", "add");
        push_flag(&mut args, options.detach, "--detach");
        push_branch(&mut args, options);
        push_flag(&mut args, !options.checkout, "--no-checkout");
        push_flag(&mut args, options.guess_remote, "--guess-remote");
        push_flag(&mut args, options.track, "--track");
        push_flag(&mut args, true, path);
        push_start(&mut args, options);
        self.git.git.command().args(&args)
    }

    /// The command `git worktree add` for a worktree at `path`; see [`Self::add_command`].
    pub fn add(&self, path: &str, options: &AddWorktreeOpts<'_>) -> (command: GitCommand)
        ensures
            command@ == self.command().with_args(options@.args(path@)),
    {
        self.add_command(path, options)
    }

    /// The command `git worktree move <from> <to>`, run in `from`.
    pub fn rename(&self, from: &str, to: &str) -> (command: GitCommand)
        ensures
            command@ == self.command().in_dir(from@).with_args(
                seq!["worktree"@, "move"@, from@, to@],
            ),
    {
        let command = self.git.git.command().current_dir(from).arg("worktree").arg("move").arg(
            from,
        ).arg(to);
        assert(command@.args =~= self.command().args + seq!["worktree"@, "move"@, from@, to@]);
        command
    }

    /// The command `git worktree repair [<paths>...]`.
    pub fn repair(&self, paths: &Vec<String>) -> (command: GitCommand)
        ensures
            command@ == self.command().with_args(seq!["worktree"@, "repair"@] + views(paths@)),
    {
        let command = self.git.git.command().arg("worktree").arg("repair").args(paths);
        assert(command@.args =~= self.command().args + (seq!["worktree"@, "repair"@] + views(
            paths@,
        )));
        command
    }

    /// The directory name for the worktree of the branch `branch`, by the configured
    /// rules; see [`spec_dirname_for`].
    pub fn dirname_for(&self, branch: &str) -> (dirname: String)
        ensures
            dirname@ == spec_dirname_for(self.rules(), branch@),
    {
        dirname_for(&self.git.config.add.branch_replacements, branch)
    }

    /// The full path for a new worktree of the branch `branch` in the container
    /// directory `container`.
    pub fn path_for(&self, container: &str, branch: &str) -> (path: String)
        ensures
            path@ == path_join(container@, spec_dirname_for(self.rules(), branch@)),
    {
        join(container, self.dirname_for(branch).as_str())
    }

    /// Resolves a set of worktrees into unique names, one for each, in their order, by
    /// the configured rules; see [`resolve_unique_worktree_names`].
    pub fn resolve_unique_names(&self, opts: ResolveUniqueNameOpts) -> (resolved: Result<
        Vec<RenamedWorktree>,
        NoNameError,
    >)
        ensures
            match resolved {
                Ok(renamed) => {
                    &&& resolve_unique_names::renamed_worktrees(renamed@) == opts.worktrees@
                    &&& resolve_unique_names::spec_resolved(
                        opts.worktrees@,
                        views(opts.names@),
                        views(opts.directory_names@),
                        self.rules(),
                        opts.worktrees@.len() as int,
                    ) == Some(resolve_unique_names::renamed_names(renamed@))
                },
                Err(error) => resolve_unique_names::spec_resolved(
                    opts.worktrees@,
                    views(opts.names@),
                    views(opts.directory_names@),
                    self.rules(),
                    opts.worktrees@.len() as int,
                ) is None && 0 <= resolve_unique_names::spec_unnamed_index(
                    opts.worktrees@,
                    views(opts.names@),
                    views(opts.directory_names@),
                    self.rules(),
                    opts.worktrees@.len() as int,
                ) < opts.worktrees@.len() && error.path@
                    == opts.worktrees@[resolve_unique_names::spec_unnamed_index(
                    opts.worktrees@,
                    views(opts.names@),
                    views(opts.directory_names@),
                    self.rules(),
                    opts.worktrees@.len() as int,
                )].path,
            },
    {
        resolve_unique_worktree_names(&self.git.config.add.branch_replacements, opts)
    }

    /// The worktree that has the preferred branch checked out, if one has: the first
    /// one on the local branch of that branch's name.
    pub fn preferred_branch(&self, preferred_branch: Option<&BranchRef>, worktrees: &Worktrees) -> (found:
        Option<Worktree>)
        ensures
            match found {
                Some(worktree) => spec_preferred_index(worktrees@, option_branch_name(preferred_branch))
                    < worktrees@.len() && worktree@ == worktrees@[spec_preferred_index(
                    worktrees@,
                    option_branch_name(preferred_branch),
                )],
                None => spec_preferred_index(worktrees@, option_branch_name(preferred_branch))
                    == worktrees@.len(),
            },
    {
        match preferred_branch {
            Some(branch) => {
                proof {
                    parse::lemma_index_on_branch(worktrees@, branch@.branch_name(), 0);
                }
                match worktrees.for_branch(&branch.as_local()) {
                    Some(worktree) => Some(worktree.clone()),
                    None => None,
                }
            },
            None => None,
        }
    }

    /// The path of some worktree to work in; see [`spec_find_some`].
    ///
    /// Whoever is inside a worktree already stays there and has no use for this.
    pub fn find_some(&self, worktrees: &Worktrees, preferred_branch: Option<&BranchRef>) -> (path: String)
        ensures
            path@ == spec_find_some(worktrees@, option_branch_name(preferred_branch)),
    {
        if let Some(worktree) = self.preferred_branch(preferred_branch, worktrees) {
            return worktree.path;
        }
        if worktrees.main().head.is_bare() && worktrees.len() > 1 {
            if let Some(worktree) = worktrees.first_not_bare() {
                return worktree.path.clone();
            }
        }
        worktrees.main_path().to_owned()
    }
}

} // verus!
