//! The model of a git repository: hashes, refs, worktrees and statuses.

pub mod branch;
pub mod commit_hash;
pub mod commitish;
pub mod config;
pub mod head_state;
pub mod path;
pub mod refs;
pub mod remote;
pub mod repository_url_destination;
pub mod status;
pub mod worktree;

pub use branch::GitBranch;
pub use branch::PreferredStep;
pub use commit_hash::CommitHash;
pub use remote::GitRemote;
pub use remote::RemoteError;
pub use refs::BranchModel;
pub use refs::BranchRef;
pub use refs::GitRefs;
pub use refs::LocalBranchRef;
pub use refs::Ref;
pub use refs::RefModel;
pub use refs::RemoteBranchRef;
pub use repository_url_destination::repository_url_destination;
pub use status::GitStatus;
pub use status::Status;
pub use status::StatusCode;
pub use status::StatusEntry;
pub use status::StatusEntryModel;
pub use commitish::CommitishModel;
pub use commitish::ResolvedCommitish;
pub use config::ConfigError;
pub use config::GitConfig;
pub use path::GitPath;
pub use path::PathError;
pub use head_state::HeadKind;
pub use head_state::HeadKindModel;
pub use worktree::HeadModel;
pub use worktree::Worktree;
pub use worktree::WorktreeHead;
pub use worktree::WorktreeModel;
pub use worktree::Worktrees;

use vstd::prelude::*;
use vstd::string::*;
use crate::config::ConfigFile;
use crate::text::clone_strings;
use crate::text::extend_strings;
use crate::text::push_str;
use crate::text::views;

verus! {

/// The views of a list of name and value pairs.
pub open spec fn pair_views(pairs: Seq<(String, String)>) -> Seq<(Seq<char>, Seq<char>)> {
    pairs.map_values(|pair: (String, String)| (pair.0@, pair.1@))
}

/// Copies a list of name and value pairs.
pub fn clone_pairs(pairs: &Vec<(String, String)>) -> (copy: Vec<(String, String)>)
    ensures
        pair_views(copy@) == pair_views(pairs@),
{
    let mut copy: Vec<(String, String)> = Vec::new();
    let mut k: usize = 0;
    while k < pairs.len()
        invariant
            k <= pairs@.len(),
            pair_views(copy@) == pair_views(pairs@).take(k as int),
        decreases pairs@.len() - k,
    {
        let ghost before = pair_views(copy@);
        copy.push((pairs[k].0.clone(), pairs[k].1.clone()));
        assert(pair_views(copy@) =~= before.push((pairs@[k as int].0@, pairs@[k as int].1@)));
        assert(pair_views(copy@) =~= pair_views(pairs@).take(k + 1));
        k = k + 1;
    }
    assert(pair_views(pairs@).take(k as int) =~= pair_views(pairs@));
    copy
}

/// The mathematical value of a [`GitCommand`].
pub struct CommandModel {
    pub current_dir: Seq<char>,
    pub envs: Seq<(Seq<char>, Seq<char>)>,
    pub args: Seq<Seq<char>>,
}

impl CommandModel {
    /// The command with `more` behind its arguments.
    pub open spec fn with_args(self, more: Seq<Seq<char>>) -> CommandModel {
        CommandModel { args: self.args + more, ..self }
    }

    /// The command run in another directory.
    pub open spec fn in_dir(self, current_dir: Seq<char>) -> CommandModel {
        CommandModel { current_dir, ..self }
    }
}

/// A `git` invocation that is ready to run: the directory to run it in, the
/// environment variables to add, and the arguments after the program `git`.
#[derive(Debug, PartialEq, Eq)]
pub struct GitCommand {
    pub current_dir: String,
    pub envs: Vec<(String, String)>,
    pub args: Vec<String>,
}

impl View for GitCommand {
    type V = CommandModel;

    open spec fn view(&self) -> CommandModel {
        CommandModel {
            current_dir: self.current_dir@,
            envs: pair_views(self.envs@),
            args: views(self.args@),
        }
    }
}

impl GitCommand {
    /// The program that every command runs.
    pub fn program(&self) -> (program: &'static str)
        ensures
            program@ == "git"@,
    {
        "git"
    }

    /// Puts one more argument behind the others.
    pub fn arg(self, arg: &str) -> (command: Self)
        ensures
            command@ == self@.with_args(seq![arg@]),
    {
        let mut command = self;
        push_str(&mut command.args, arg);
        assert(command@.args =~= self@.args + seq![arg@]);
        command
    }

    /// Puts more arguments behind the others.
    pub fn args(self, args: &Vec<String>) -> (command: Self)
        ensures
            command@ == self@.with_args(views(args@)),
    {
        let mut command = self;
        extend_strings(&mut command.args, args);
        command
    }

    /// Runs the command in another directory.
    pub fn current_dir(self, current_dir: &str) -> (command: Self)
        ensures
            command@ == self@.in_dir(current_dir@),
    {
        let mut command = self;
        command.current_dir = current_dir.to_owned();
        command
    }
}

/// `git` CLI wrapper: where to run `git`, and what to hand to every invocation.
#[derive(Debug, PartialEq, Eq)]
pub struct Git {
    current_dir: String,
    env_variables: Vec<(String, String)>,
    args: Vec<String>,
}

impl View for Git {
    type V = CommandModel;

    closed spec fn view(&self) -> CommandModel {
        CommandModel {
            current_dir: self.current_dir@,
            envs: pair_views(self.env_variables@),
            args: views(self.args@),
        }
    }
}

impl Clone for Git {
    fn clone(&self) -> (copy: Self)
        ensures
            copy@ == self@,
    {
        Git {
            current_dir: self.current_dir.clone(),
            env_variables: clone_pairs(&self.env_variables),
            args: clone_strings(&self.args),
        }
    }
}

impl Git {
    /// `git` in the directory `.`, that is, wherever the program runs.
    pub fn new() -> (git: Self)
        ensures
            git@ == (CommandModel { current_dir: "."@, envs: Seq::empty(), args: Seq::empty() }),
    {
        let git = Git {
            current_dir: String::from_str("."),
            env_variables: Vec::new(),
            args: Vec::new(),
        };
        assert(pair_views(git.env_variables@) =~= Seq::empty());
        assert(views(git.args@) =~= Seq::empty());
        git
    }

    /// `git` in the directory `current_dir`.
    pub fn from_path(current_dir: String) -> (git: Self)
        ensures
            git@ == (CommandModel { current_dir: current_dir@, envs: Seq::empty(), args: Seq::empty() }),
    {
        let git = Git { current_dir, env_variables: Vec::new(), args: Vec::new() };
        assert(pair_views(git.env_variables@) =~= Seq::empty());
        assert(views(git.args@) =~= Seq::empty());
        git
    }

    /// This `git` together with the user's configuration.
    pub fn with_config(self, config: &ConfigFile) -> (app: AppGit<'_>)
        ensures
            app.git@ == self@,
            *app.config == *config,
    {
        AppGit { git: self, config }
    }

    /// The directory that `git` runs in.
    pub fn get_current_dir(&self) -> (current_dir: &str)
        ensures
            current_dir@ == self@.current_dir,
    {
        self.current_dir.as_str()
    }

    /// Get a `git` command.
    pub fn command(&self) -> (command: GitCommand)
        ensures
            command@ == self@,
    {
        GitCommand {
            current_dir: self.current_dir.clone(),
            envs: clone_pairs(&self.env_variables),
            args: clone_strings(&self.args),
        }
    }

    /// Set the current working directory for `git` commands to be run in.
    pub fn set_current_dir(&mut self, path: String)
        ensures
            final(self)@ == old(self)@.in_dir(path@),
    {
        self.current_dir = path;
    }

    /// This `git` in another directory.
    pub fn with_current_dir(&self, path: String) -> (git: Self)
        ensures
            git@ == self@.in_dir(path@),
    {
        Git {
            current_dir: path,
            env_variables: clone_pairs(&self.env_variables),
            args: clone_strings(&self.args),
        }
    }

    /// Sets an environment variable for every command.
    pub fn env(&mut self, key: String, value: String)
        ensures
            final(self)@ == (CommandModel { envs: old(self)@.envs.push((key@, value@)), ..old(self)@ }),
    {
        self.env_variables.push((key, value));
        assert(pair_views(self.env_variables@) =~= pair_views(old(self).env_variables@).push(
            (key@, value@),
        ));
    }

    /// Sets environment variables for every command.
    pub fn envs(&mut self, pairs: Vec<(String, String)>)
        ensures
            final(self)@ == (CommandModel { envs: old(self)@.envs + pair_views(pairs@), ..old(self)@ }),
    {
        let mut k: usize = 0;
        assert(pair_views(self.env_variables@) + pair_views(pairs@).take(0) =~= pair_views(
            self.env_variables@,
        ));
        while k < pairs.len()
            invariant
                k <= pairs@.len(),
                self.current_dir == old(self).current_dir,
                self.args == old(self).args,
                pair_views(self.env_variables@) == pair_views(old(self).env_variables@) + pair_views(
                    pairs@,
                ).take(k as int),
            decreases pairs@.len() - k,
        {
            let ghost before = pair_views(self.env_variables@);
            self.env_variables.push((pairs[k].0.clone(), pairs[k].1.clone()));
            assert(pair_views(self.env_variables@) =~= before.push(
                (pairs@[k as int].0@, pairs@[k as int].1@),
            ));
            assert(pair_views(self.env_variables@) =~= pair_views(old(self).env_variables@)
                + pair_views(pairs@).take(k + 1));
            k = k + 1;
        }
        assert(pair_views(pairs@).take(k as int) =~= pair_views(pairs@));
    }

    /// Adds an argument to every command.
    pub fn arg(&mut self, arg: String)
        ensures
            final(self)@ == old(self)@.with_args(seq![arg@]),
    {
        self.args.push(arg);
        assert(views(self.args@) =~= views(old(self).args@) + seq![arg@]);
    }

    /// Adds arguments to every command.
    pub fn args(&mut self, args: Vec<String>)
        ensures
            final(self)@ == old(self)@.with_args(views(args@)),
    {
        extend_strings(&mut self.args, &args);
    }

    /// A `git` command with `args` behind the arguments of every command.
    pub fn command_with(&self, args: &Vec<String>) -> (command: GitCommand)
        ensures
            command@ == self@.with_args(views(args@)),
    {
        self.command().args(args)
    }

    /// The command `git rev-parse --path-format=absolute <args>`.
    pub fn rev_parse_with(&self, args: &Vec<String>) -> (command: GitCommand)
        ensures
            command@ == self@.with_args(
                seq!["rev-parse"@, "--path-format=absolute"@] + views(args@),
            ),
    {
        let command = self.rev_parse_command().args(args);
        assert(command@.args =~= self@.args + (seq!["rev-parse"@, "--path-format=absolute"@]
            + views(args@)));
        command
    }

    /// The command `git rev-parse --path-format=absolute`.
    pub fn rev_parse_command(&self) -> (command: GitCommand)
        ensures
            command@ == self@.with_args(seq!["rev-parse"@, "--path-format=absolute"@]),
    {
        let command = self.command().arg("rev-parse").arg("--path-format=absolute");
        assert(command@.args =~= self@.args + seq!["rev-parse"@, "--path-format=absolute"@]);
        command
    }

    /// The command `git clone <args> <repository> [<destination>]`.
    pub fn clone_repository(&self, repository: &str, destination: Option<&str>, args: &Vec<String>) -> (command:
        GitCommand)
        ensures
            command@ == self@.with_args(
                seq!["clone"@] + views(args@) + seq![repository@] + match destination {
                    Some(path) => seq![path@],
                    None => Seq::empty(),
                },
            ),
    {
        let command = self.command().arg("clone").args(args).arg(repository);
        let command = match destination {
            Some(path) => command.arg(path),
            None => command,
        };
        assert(command@.args =~= self@.args + (seq!["clone"@] + views(args@) + seq![repository@]
            + match destination {
            Some(path) => seq![path@],
            None => Seq::empty(),
        }));
        command
    }

    /// The command `git reset`.
    pub fn reset(&self) -> (command: GitCommand)
        ensures
            command@ == self@.with_args(seq!["reset"@]),
    {
        self.command().arg("reset")
    }
}

/// A [`Git`] with the user's configuration.
#[derive(Debug)]
pub struct AppGit<'a> {
    pub git: Git,
    pub config: &'a ConfigFile,
}

impl<'a> AppGit<'a> {
    /// This `git` in another directory, with the same configuration.
    pub fn with_current_dir(&self, path: String) -> (app: AppGit<'a>)
        ensures
            app.git@ == self.git@.in_dir(path@),
            *app.config == *self.config,
    {
        AppGit { git: self.git.with_current_dir(path), config: self.config }
    }
}

} // verus!
