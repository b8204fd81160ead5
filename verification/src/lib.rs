//! `git-prole` is a `git worktree` manager.
//!
//! This library is its planning and metadata-modeling engine: it reads what `git`
//! prints, decides what to do, and says which commands to run in which order.
//! Running them is left to its caller.

pub mod add;
pub mod cli;
pub mod clone;
pub mod config;
pub mod convert;
pub mod final_component;
pub mod format_bulleted_list;
pub mod gh;
pub mod git;
pub mod only_paths_in_parent_directory;
pub mod parse;
pub mod path;
pub mod pattern;
pub mod shell;
pub mod text;
pub mod topological_sort;

pub use add::BranchStartPointPlan;
pub use add::StartPoint;
pub use add::WorktreePlan;
pub use cli::AddArgs;
pub use cli::AddArgsInner;
pub use config::AddConfig;
pub use config::BranchReplacement;
pub use config::CloneConfig;
pub use config::ConfigFile;
pub use config::ShellArgs;
pub use config::ShellCommand;
pub use convert::ConvertPlan;
pub use convert::ConvertPlanOpts;
pub use final_component::final_component;
pub use format_bulleted_list::format_bulleted_list;
pub use format_bulleted_list::format_bulleted_list_multiline;
pub use gh::looks_like_gh_url;
pub use gh::parse_gh_url;
pub use git::repository_url_destination;
pub use git::worktree::AddWorktreeOpts;
pub use git::worktree::GitWorktree;
pub use git::worktree::RenamedWorktree;
pub use git::worktree::ResolveUniqueNameOpts;
pub use git::AppGit;
pub use git::BranchRef;
pub use git::CommitHash;
pub use git::Git;
pub use git::GitBranch;
pub use git::GitConfig;
pub use git::GitPath;
pub use git::GitRefs;
pub use git::GitRemote;
pub use git::GitStatus;
pub use git::HeadKind;
pub use git::LocalBranchRef;
pub use git::Ref;
pub use git::RemoteBranchRef;
pub use git::ResolvedCommitish;
pub use git::Status;
pub use git::StatusCode;
pub use git::StatusEntry;
pub use git::Worktree;
pub use git::WorktreeHead;
pub use git::Worktrees;
pub use only_paths_in_parent_directory::only_paths_in_parent_directory;
pub use parse::desc;
pub use parse::expected;
pub use parse::till_null;
pub use parse::ParseContext;
pub use parse::ParseError;
pub use topological_sort::topological_sort;
