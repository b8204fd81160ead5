//! Paths of a repository: the commands to run, and what to make of their output.

use vstd::prelude::*;
use vstd::string::*;
use crate::git::CommandModel;
use crate::git::Git;
use crate::git::GitCommand;
use crate::path::file_name;
use crate::path::parent;
use crate::path::path_file_name;
use crate::path::path_parent;
use crate::text::spec_trim;
use crate::text::str_eq;
use crate::text::trim;

verus! {

/// Why a repository has no root to show.
#[derive(Debug, PartialEq, Eq)]
pub enum PathError {
    GitDirHasNoBasename(String),
    GitDirHasNoParent(String),
    NotInRepository(String),
}

/// The mathematical value of a [`PathError`].
pub enum PathErrorModel {
    GitDirHasNoBasename(Seq<char>),
    GitDirHasNoParent(Seq<char>),
    NotInRepository(Seq<char>),
}

impl View for PathError {
    type V = PathErrorModel;

    open spec fn view(&self) -> PathErrorModel {
        match self {
            PathError::GitDirHasNoBasename(path) => PathErrorModel::GitDirHasNoBasename(path@),
            PathError::GitDirHasNoParent(path) => PathErrorModel::GitDirHasNoParent(path@),
            PathError::NotInRepository(path) => PathErrorModel::NotInRepository(path@),
        }
    }
}

impl PathError {
    /// The message of the error.
    pub fn to_string(&self) -> (text: String)
        ensures
            text@ == match self@ {
                PathErrorModel::GitDirHasNoBasename(path) => "Git directory has no basename: "@ + path,
                PathErrorModel::GitDirHasNoParent(path) => "Git directory has no parent: "@ + path,
                PathErrorModel::NotInRepository(path) => "Path is not in a working tree or a bare repository: "@
                    + path,
            },
    {
        match self {
            PathError::GitDirHasNoBasename(path) => String::from_str(
                "Git directory has no basename: ",
            ).concat(path.as_str()),
            PathError::GitDirHasNoParent(path) => String::from_str(
                "Git directory has no parent: ",
            ).concat(path.as_str()),
            PathError::NotInRepository(path) => String::from_str(
                "Path is not in a working tree or a bare repository: ",
            ).concat(path.as_str()),
        }
    }
}

/// The root of a bare repository, for display: the parent of its git directory where
/// that is named `.git`, and the git directory itself otherwise.
pub open spec fn spec_bare_repo_root(git_dir: Seq<char>) -> Result<Seq<char>, PathErrorModel> {
    match path_file_name(git_dir) {
        None => Err(PathErrorModel::GitDirHasNoBasename(git_dir)),
        Some(basename) => if basename == ".git"@ {
            match path_parent(git_dir) {
                Some(above) => Ok(above),
                None => Err(PathErrorModel::GitDirHasNoParent(git_dir)),
            }
        } else {
            Ok(git_dir)
        },
    }
}

/// Git methods for dealing with paths.
#[derive(Debug)]
pub struct GitPath<'a> {
    git: &'a Git,
}

impl<'a> GitPath<'a> {
    /// The `git` that the commands are made of.
    pub closed spec fn command(&self) -> CommandModel {
        self.git@
    }

    /// The path methods of `git`.
    pub fn new(git: &'a Git) -> (path: Self)
        ensures
            path.command() == git@,
    {
        GitPath { git }
    }

    /// The path of the repository root, for display purposes only.
    ///
    /// In a working tree this is its root, `worktree_root`. For a bare repository it
    /// is made of the git directory `git_common_dir`; see [`spec_bare_repo_root`].
    /// Anywhere else there is none.
    pub fn repo_root_display(
        &self,
        worktree_root: Option<String>,
        is_bare: bool,
        git_common_dir: String,
    ) -> (root: Result<String, PathError>)
        ensures
            match root {
                Ok(path) => match worktree_root {
                    Some(inside) => path@ == inside@,
                    None => is_bare && spec_bare_repo_root(git_common_dir@) == Ok::<_, PathErrorModel>(
                        path@,
                    ),
                },
                Err(error) => worktree_root is None && if is_bare {
                    spec_bare_repo_root(git_common_dir@) == Err::<Seq<char>, _>(error@)
                } else {
                    error@ == PathErrorModel::NotInRepository(self.command().current_dir)
                },
            },
    {
        if let Some(inside) = worktree_root {
            return Ok(inside);
        }
        if !is_bare {
            return Err(PathError::NotInRepository(self.git.get_current_dir().to_owned()));
        }
        let basename = match file_name(git_common_dir.as_str()) {
            Some(name) => name,
            None => {
                return Err(PathError::GitDirHasNoBasename(git_common_dir));
            },
        };
        if str_eq(basename.as_str(), ".git") {
            match parent(git_common_dir.as_str()) {
                Some(above) => Ok(above),
                None => Err(PathError::GitDirHasNoParent(git_common_dir)),
            }
        } else {
            Ok(git_common_dir)
        }
    }

    /// The command that shows the `.git` directory.
    pub fn get_git_dir(&self) -> (command: GitCommand)
        ensures
            command@ == self.command().with_args(
                seq!["rev-parse"@, "--path-format=absolute"@, "--git-dir"@],
            ),
    {
        let command = self.git.rev_parse_command().arg("--git-dir");
        assert(command@.args =~= self.command().args + seq![
            "rev-parse"@,
            "--path-format=absolute"@,
            "--git-dir"@,
        ]);
        command
    }

    /// The command that shows the common `.git` directory of all worktrees.
    pub fn git_common_dir(&self) -> (command: GitCommand)
        ensures
            command@ == self.command().with_args(
                seq!["rev-parse"@, "--path-format=absolute"@, "--git-common-dir"@],
            ),
    {
        let command = self.git.rev_parse_command().arg("--git-common-dir");
        assert(command@.args =~= self.command().args + seq![
            "rev-parse"@,
            "--path-format=absolute"@,
            "--git-common-dir"@,
        ]);
        command
    }

    /// The path that a path command printed: its output without the whitespace
    /// around it.
    pub fn parse_path(stdout: &str) -> (path: String)
        ensures
            path@ == spec_trim(stdout@),
    {
        trim(stdout).to_owned()
    }
}

} // verus!
