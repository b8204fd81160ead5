//! Planning a clone.

use vstd::prelude::*;
use vstd::string::*;
use crate::gh::looks_like_gh_url;
use crate::gh::spec_is_gh_url;
use crate::git::AppGit;
use crate::git::CommandModel;
use crate::git::GitCommand;
use crate::git::repository_url_destination::repository_url_destination;
use crate::git::repository_url_destination::spec_repository_url_destination;
use crate::path::join;
use crate::path::path_join;
use crate::text::extend_strings;
use crate::text::list4;
use crate::text::views;

verus! {

/// Why nothing is cloned.
#[derive(Debug, Clone, Copy, PartialEq, Eq, Structural)]
pub enum CloneError {
    DryRunUnsupported,
}

impl CloneError {
    /// The message of the error.
    pub fn to_string(&self) -> (text: String)
        ensures
            text@ == "--dry-run is not supported for this command yet"@,
    {
        String::from_str("--dry-run is not supported for this command yet")
    }
}

/// The command that clones the repository.
#[derive(Debug, PartialEq, Eq)]
pub enum CloneCommand {
    /// Run `gh` with these arguments.
    Gh(Vec<String>),
    /// Run this `git` command.
    Git(GitCommand),
}

/// The mathematical value of a [`CloneCommand`].
pub enum CloneCommandModel {
    Gh(Seq<Seq<char>>),
    Git(CommandModel),
}

impl View for CloneCommand {
    type V = CloneCommandModel;

    open spec fn view(&self) -> CloneCommandModel {
        match self {
            CloneCommand::Gh(args) => CloneCommandModel::Gh(views(args@)),
            CloneCommand::Git(command) => CloneCommandModel::Git(command@),
        }
    }
}

/// A clone that is ready to run. The conversion of the clone at `destination` follows.
#[derive(Debug, PartialEq, Eq)]
pub struct ClonePlan {
    pub destination: String,
    pub command: CloneCommand,
}

/// Where the clone goes: the directory that the user gave or, without one, the
/// directory in the current directory that is named after the repository.
pub open spec fn spec_clone_destination(
    repository: Seq<char>,
    directory: Option<Seq<char>>,
    current_dir: Seq<char>,
) -> Seq<char> {
    match directory {
        Some(path) => path,
        None => path_join(current_dir, spec_repository_url_destination(repository)),
    }
}

/// Whether GitHub's `gh` does the cloning: it is switched on and installed, and the
/// repository looks like a GitHub name and not like a local path.
pub open spec fn spec_use_gh(enable_gh: bool, repository: Seq<char>, exists_locally: bool, gh_installed: bool) -> bool {
    enable_gh && spec_is_gh_url(repository) && !exists_locally && gh_installed
}

/// Plans the clone of `repository`. `current_dir` is the directory that the program
/// runs in, `exists_locally` whether `repository` is a path that exists, and
/// `gh_installed` whether the program `gh` was found.
pub fn clone(
    git: &AppGit<'_>,
    repository: &str,
    directory: Option<&str>,
    clone_args: &Vec<String>,
    current_dir: &str,
    dry_run: bool,
    exists_locally: bool,
    gh_installed: bool,
) -> (planned: Result<ClonePlan, CloneError>)
    ensures
        match planned {
            Ok(plan) => {
                let destination = spec_clone_destination(
                    repository@,
                    match directory {
                        Some(path) => Some(path@),
                        None => None,
                    },
                    current_dir@,
                );
                &&& !dry_run
                &&& plan.destination@ == destination
                &&& plan.command@ == if spec_use_gh(
                    git.config.clone.enable_gh == Some(true),
                    repository@,
                    exists_locally,
                    gh_installed,
                ) {
                    CloneCommandModel::Gh(
                        seq!["repo"@, "clone"@, repository@, destination] + views(clone_args@),
                    )
                } else {
                    CloneCommandModel::Git(
                        git.git@.with_args(
                            seq!["clone"@] + views(clone_args@) + seq![repository@] + seq![
                                destination,
                            ],
                        ),
                    )
                }
            },
            Err(error) => dry_run,
        },
{
    let destination = match directory {
        Some(path) => path.to_owned(),
        None => join(current_dir, repository_url_destination(repository)),
    };
    if dry_run {
        return Err(CloneError::DryRunUnsupported);
    }
    let command = if git.config.clone.enable_gh() && looks_like_gh_url(repository, exists_locally)
        && gh_installed {
        let mut args = list4("repo", "clone", repository, destination.as_str());
        extend_strings(&mut args, clone_args);
        CloneCommand::Gh(args)
    } else {
        CloneCommand::Git(
            git.git.clone_repository(repository, Some(destination.as_str()), clone_args),
        )
    };
    Ok(ClonePlan { destination, command })
}

} // verus!
