//! Planning the conversion of a repository into a bare repository with worktrees.

use vstd::prelude::*;
use vstd::string::*;
use crate::config::replacement_views;
use crate::config::ReplacementModel;
use crate::format_bulleted_list::format_bulleted_list_multiline;
use crate::format_bulleted_list::spec_format_bulleted_list_multiline;
use crate::git::AppGit;
use crate::git::CommandModel;
use crate::git::GitCommand;
use crate::git::refs::branch::BranchModel;
use crate::git::refs::branch::BranchRef;
use crate::git::refs::local_branch::LocalBranchRef;
use crate::git::refs::name::Ref;
use crate::git::refs::name::RefModel;
use crate::git::refs::remote_branch::spec_remote_of;
use crate::git::worktree::AddOptsModel;
use crate::git::worktree::AddWorktreeOpts;
use crate::git::worktree::dirname_for;
use crate::git::worktree::GitWorktree;
use crate::git::worktree::parse::lemma_index_on_branch;
use crate::git::worktree::parse::spec_index_on_branch;
use crate::git::worktree::parse::well_formed;
use crate::git::worktree::parse::Worktree;
use crate::git::worktree::parse::WorktreeModel;
use crate::git::worktree::parse::Worktrees;
use crate::git::worktree::resolve_unique_names::lemma_resolved_names_are_unique;
use crate::git::worktree::resolve_unique_names::renamed_names;
use crate::git::worktree::resolve_unique_names::renamed_worktrees;
use crate::git::worktree::resolve_unique_names::RenamedWorktree;
use crate::git::worktree::resolve_unique_names::resolve_unique_worktree_names;
use crate::git::worktree::resolve_unique_names::ResolveUniqueNameOpts;
use crate::git::worktree::resolve_unique_names::spec_pick;
use crate::git::worktree::resolve_unique_names::spec_resolved;
use crate::git::worktree::resolve_unique_names::spec_unnamed_index;
use crate::git::worktree::spec_dirname_for;
use crate::path::file_name;
use crate::path::is_same_path;
use crate::path::join;
use crate::path::parent;
use crate::path::path_below;
use crate::path::path_file_name;
use crate::path::path_join;
use crate::path::path_parent;
use crate::path::same_path;
use crate::text::has_suffix;
use crate::text::slice_to_string;
use crate::text::str_eq;
use crate::text::spec_has_suffix;
use crate::text::views;
use crate::topological_sort::as_ints;
use crate::topological_sort::is_index_permutation;
use crate::topological_sort::lemma_first_relative;
use crate::topological_sort::spec_first_relative;
use crate::topological_sort::topological_order;

verus! {

/// What the user asked of a conversion.
#[derive(Debug, PartialEq, Eq)]
pub struct ConvertPlanOpts {
    /// A default branch to create a worktree for.
    pub default_branch: Option<String>,
    /// The directory to place the worktrees into.
    pub destination: Option<String>,
}

/// Why no conversion can be planned.
#[derive(Debug, PartialEq, Eq)]
pub enum ConvertError {
    RepoHasNoParent(String),
    DestinationHasNoBasename(String),
    GitDirHasNoBasename(String),
    GitDirHasNoParent(String),
    DefaultBranchNotFound(String),
    DefaultBranchNotABranch(String),
    /// The default branch gets a worktree of its own, and its directory name is the
    /// one that the branch of the main worktree gives.
    SharedDirectoryName { name: String, checked_out: String, default_branch: String },
    NoUniqueName(String),
    RelativePath(String),
}

/// The mathematical value of a [`ConvertError`].
pub enum ConvertErrorModel {
    RepoHasNoParent(Seq<char>),
    DestinationHasNoBasename(Seq<char>),
    GitDirHasNoBasename(Seq<char>),
    GitDirHasNoParent(Seq<char>),
    DefaultBranchNotFound(Seq<char>),
    DefaultBranchNotABranch(Seq<char>),
    SharedDirectoryName { name: Seq<char>, checked_out: Seq<char>, default_branch: Seq<char> },
    NoUniqueName(Seq<char>),
    RelativePath(Seq<char>),
}

impl ConvertErrorModel {
    /// The message of the error.
    pub open spec fn describe(self) -> Seq<char> {
        match self {
            ConvertErrorModel::RepoHasNoParent(path) => "Repository path has no parent: "@ + path,
            ConvertErrorModel::DestinationHasNoBasename(path) => "Destination has no basename: "@
                + path,
            ConvertErrorModel::GitDirHasNoBasename(path) => "Git directory has no basename: "@ + path,
            ConvertErrorModel::GitDirHasNoParent(path) => "Git directory has no parent: "@ + path,
            ConvertErrorModel::DefaultBranchNotFound(name) => "`--default-branch` not found: "@ + name,
            ConvertErrorModel::DefaultBranchNotABranch(name) => "Ref is not a local or remote branch: "@
                + name,
            ConvertErrorModel::SharedDirectoryName { name, checked_out, default_branch } =>
                "The default branch "@ + default_branch + " and the checked out branch "@
                    + checked_out + " share the directory name "@ + name,
            ConvertErrorModel::NoUniqueName(path) => "No unique name is left for the worktree at "@
                + path,
            ConvertErrorModel::RelativePath(path) => "Path is relative: "@ + path,
        }
    }
}

impl View for ConvertError {
    type V = ConvertErrorModel;

    open spec fn view(&self) -> ConvertErrorModel {
        match self {
            ConvertError::RepoHasNoParent(path) => ConvertErrorModel::RepoHasNoParent(path@),
            ConvertError::DestinationHasNoBasename(path) => ConvertErrorModel::DestinationHasNoBasename(
                path@,
            ),
            ConvertError::GitDirHasNoBasename(path) => ConvertErrorModel::GitDirHasNoBasename(path@),
            ConvertError::GitDirHasNoParent(path) => ConvertErrorModel::GitDirHasNoParent(path@),
            ConvertError::DefaultBranchNotFound(name) => ConvertErrorModel::DefaultBranchNotFound(
                name@,
            ),
            ConvertError::DefaultBranchNotABranch(name) => ConvertErrorModel::DefaultBranchNotABranch(
                name@,
            ),
            ConvertError::SharedDirectoryName { name, checked_out, default_branch } =>
                ConvertErrorModel::SharedDirectoryName {
                    name: name@,
                    checked_out: checked_out@,
                    default_branch: default_branch@,
                },
            ConvertError::NoUniqueName(path) => ConvertErrorModel::NoUniqueName(path@),
            ConvertError::RelativePath(path) => ConvertErrorModel::RelativePath(path@),
        }
    }
}

impl ConvertError {
    /// The message of the error.
    pub fn to_string(&self) -> (text: String)
        ensures
            text@ == self@.describe(),
    {
        match self {
            ConvertError::RepoHasNoParent(path) => String::from_str(
                "Repository path has no parent: ",
            ).concat(path.as_str()),
            ConvertError::DestinationHasNoBasename(path) => String::from_str(
                "Destination has no basename: ",
            ).concat(path.as_str()),
            ConvertError::GitDirHasNoBasename(path) => String::from_str(
                "Git directory has no basename: ",
            ).concat(path.as_str()),
            ConvertError::GitDirHasNoParent(path) => String::from_str(
                "Git directory has no parent: ",
            ).concat(path.as_str()),
            ConvertError::DefaultBranchNotFound(name) => String::from_str(
                "`--default-branch` not found: ",
            ).concat(name.as_str()),
            ConvertError::DefaultBranchNotABranch(name) => String::from_str(
                "Ref is not a local or remote branch: ",
            ).concat(name.as_str()),
            ConvertError::SharedDirectoryName { name, checked_out, default_branch } => {
                let mut text = String::from_str("The default branch ");
                text.append(default_branch.as_str());
                text.append(" and the checked out branch ");
                text.append(checked_out.as_str());
                text.append(" share the directory name ");
                text.append(name.as_str());
                text
            },
            ConvertError::NoUniqueName(path) => String::from_str(
                "No unique name is left for the worktree at ",
            ).concat(path.as_str()),
            ConvertError::RelativePath(path) => String::from_str("Path is relative: ").concat(
                path.as_str(),
            ),
        }
    }
}

/// The mathematical value of a [`WorktreePlan`].
pub struct EntryModel {
    pub name: Seq<char>,
    pub worktree: WorktreeModel,
}

/// A plan for converting one worktree into a worktree of a worktree repository.
#[derive(Debug, PartialEq, Eq)]
pub struct WorktreePlan {
    /// The name of the worktree; this is the last component of the destination path.
    pub name: String,
    /// The worktree itself.
    pub worktree: Worktree,
}

impl View for WorktreePlan {
    type V = EntryModel;

    open spec fn view(&self) -> EntryModel {
        EntryModel { name: self.name@, worktree: self.worktree@ }
    }
}

impl Clone for WorktreePlan {
    fn clone(&self) -> (copy: Self)
        ensures
            copy@ == self@,
    {
        WorktreePlan { name: self.name.clone(), worktree: self.worktree.clone() }
    }
}

impl WorktreePlan {
    /// The plan of a worktree that was given a name.
    pub fn from(renamed: RenamedWorktree) -> (plan: Self)
        ensures
            plan@ == (EntryModel { name: renamed.name@, worktree: renamed.worktree@ }),
    {
        WorktreePlan { name: renamed.name, worktree: renamed.worktree }
    }
}

/// The views of the plans of `plans`.
pub open spec fn entry_views(plans: Seq<WorktreePlan>) -> Seq<EntryModel> {
    plans.map_values(|plan: WorktreePlan| plan@)
}

/// The mathematical value of a [`NewWorktreePlan`].
pub struct NewWorktreeModel {
    pub name: Seq<char>,
    pub create_branch: Option<Seq<char>>,
    pub start_point: BranchModel,
}

/// A plan for creating a new worktree for a worktree repository.
#[derive(Debug, PartialEq, Eq)]
pub struct NewWorktreePlan {
    /// The name of the worktree; this is the last component of the destination path.
    pub name: String,
    /// A local branch to create, if the `start_point` doesn't already exist.
    pub create_branch: Option<LocalBranchRef>,
    /// The branch the worktree will have checked out.
    pub start_point: BranchRef,
}

impl View for NewWorktreePlan {
    type V = NewWorktreeModel;

    open spec fn view(&self) -> NewWorktreeModel {
        NewWorktreeModel {
            name: self.name@,
            create_branch: match self.create_branch {
                Some(branch) => Some(branch@),
                None => None,
            },
            start_point: self.start_point@,
        }
    }
}

/// The views of the plans of `plans`.
pub open spec fn new_worktree_views(plans: Seq<NewWorktreePlan>) -> Seq<NewWorktreeModel> {
    plans.map_values(|plan: NewWorktreePlan| plan@)
}

/// The names of the plans of `plans`.
pub open spec fn new_worktree_names(plans: Seq<NewWorktreeModel>) -> Seq<Seq<char>> {
    plans.map_values(|plan: NewWorktreeModel| plan.name)
}

/// The plan for the worktree that holds the `.git` directory, which becomes a bare
/// repository of its own.
#[derive(Debug, PartialEq, Eq)]
pub struct MainWorktreePlan {
    /// The plan for the main worktree.
    pub inner: WorktreePlan,
}

/// Where the worktrees go.
///
/// - A destination that the user gave is taken as it is.
/// - For a main worktree that is not bare: the common parent of the worktrees, if
///   there are several and they are alone in one directory; else the path of the
///   main worktree.
/// - For a bare main worktree: if it is named `.git`, its parent; if its name ends
///   with `.git`, the directory of that name without the `.git` beside it; else its
///   own path.
pub open spec fn spec_destination(
    list: Seq<WorktreeModel>,
    explicit: Option<Seq<char>>,
    common_parent: Option<Seq<char>>,
) -> Result<Seq<char>, ConvertErrorModel> {
    let main = list[0];
    if explicit is Some {
        Ok(explicit->0)
    } else if !(main.head is Bare) {
        if list.len() > 1 && common_parent is Some {
            Ok(common_parent->0)
        } else {
            Ok(main.path)
        }
    } else if path_file_name(main.path) is None {
        Err(ConvertErrorModel::GitDirHasNoBasename(main.path))
    } else if path_parent(main.path) is None {
        Err(ConvertErrorModel::GitDirHasNoParent(main.path))
    } else {
        let basename = path_file_name(main.path)->0;
        let above = path_parent(main.path)->0;
        if basename == ".git"@ {
            Ok(above)
        } else if spec_has_suffix(basename, ".git"@) {
            Ok(path_join(above, basename.take(basename.len() - ".git"@.len())))
        } else {
            Ok(main.path)
        }
    }
}

/// The default branch that the user named, as the repository resolved the name:
/// it must be there, and be a local or a remote-tracking branch.
pub open spec fn spec_explicit_default_branch(
    name: Seq<char>,
    resolved: Option<RefModel>,
) -> Result<BranchModel, ConvertErrorModel> {
    match resolved {
        None => Err(ConvertErrorModel::DefaultBranchNotFound(name)),
        Some(found) => match BranchModel::of_ref(found) {
            Some(branch) => Ok(branch),
            None => Err(ConvertErrorModel::DefaultBranchNotABranch(found.name)),
        },
    }
}

/// Whether a worktree of `list` has the default branch checked out, as a local branch.
pub open spec fn spec_has_worktree_for(
    list: Seq<WorktreeModel>,
    default_branch: BranchModel,
) -> bool {
    spec_index_on_branch(list, default_branch.branch_name(), 0) < list.len()
}

/// The local branch whose existence decides how the default branch gets a worktree:
/// asked for where the default branch is a remote branch without a worktree.
pub open spec fn spec_needs_exists_local(
    list: Seq<WorktreeModel>,
    default_branch: BranchModel,
) -> Option<Seq<char>> {
    if !spec_has_worktree_for(list, default_branch) && default_branch is Remote {
        Some(default_branch.branch_name())
    } else {
        None
    }
}

/// The worktrees to create: one for the default branch, unless it is checked out
/// already. For a remote default branch the worktree gets the local branch of that
/// name; where that does not exist yet, it is created to track the remote branch.
pub open spec fn spec_new_worktrees(
    list: Seq<WorktreeModel>,
    default_branch: BranchModel,
    exists_local: bool,
    rules: Seq<ReplacementModel>,
) -> Seq<NewWorktreeModel> {
    let name = spec_dirname_for(rules, default_branch.branch_name());
    if spec_has_worktree_for(list, default_branch) {
        Seq::empty()
    } else if default_branch is Local {
        seq![NewWorktreeModel { name, create_branch: None, start_point: default_branch }]
    } else if exists_local {
        seq![
            NewWorktreeModel {
                name,
                create_branch: None,
                start_point: BranchModel::Local(default_branch.branch_name()),
            },
        ]
    } else {
        seq![
            NewWorktreeModel {
                name,
                create_branch: Some(default_branch.branch_name()),
                start_point: default_branch,
            },
        ]
    }
}

/// The paths of the worktrees of `list`.
pub open spec fn worktree_paths(list: Seq<WorktreeModel>) -> Seq<Seq<char>> {
    list.map_values(|worktree: WorktreeModel| worktree.path)
}

/// What a conversion is planned from: the repository as it was queried.
#[derive(Debug)]
pub struct ConvertInputs {
    /// A fresh directory that holds the worktrees while the repository is rearranged.
    pub tempdir: String,
    /// The git directory of the repository.
    pub repo: String,
    /// The worktrees of the repository.
    pub worktrees: Worktrees,
    /// Where the worktrees go; see [`ConvertPlan::destination_plan`].
    pub destination: String,
    /// The default branch; see [`ConvertPlan::explicit_default_branch`].
    pub default_branch: BranchRef,
    /// Whether a local branch of the default branch's name exists; see
    /// [`ConvertPlan::needs_exists_local`].
    pub default_branch_exists_locally: bool,
}

/// The mathematical value of a [`ConvertPlan`].
pub struct ConvertPlanModel {
    pub tempdir: Seq<char>,
    pub destination: Seq<char>,
    pub repo: Seq<char>,
    pub make_bare: Option<EntryModel>,
    pub worktrees: Seq<EntryModel>,
    pub new_worktrees: Seq<NewWorktreeModel>,
}

/// The plan of a conversion. It is made once, of the whole state of the repository,
/// and not changed afterwards.
#[derive(Debug)]
pub struct ConvertPlan<'a> {
    /// A Git instance in the repository to convert.
    git: AppGit<'a>,
    /// A temporary directory where worktrees will be placed while the repository is
    /// rearranged.
    tempdir: String,
    /// The destination where the worktree container will be created.
    destination: String,
    /// The path of the repository to create.
    repo: String,
    /// The plan for converting the repo to a bare repo. If this is `Some`, the main
    /// worktree is not yet bare.
    make_bare: Option<MainWorktreePlan>,
    /// Plans for renaming the worktrees, each with a name of its own, in an order in
    /// which a worktree moves before the worktrees it lies below. If `/puppy` moved
    /// before `/puppy/doggy`, then `/puppy/doggy` would not be where we expect it.
    worktrees: Vec<WorktreePlan>,
    /// New worktrees to create: one for the default branch, unless it's already
    /// checked out.
    new_worktrees: Vec<NewWorktreePlan>,
}

impl<'a> View for ConvertPlan<'a> {
    type V = ConvertPlanModel;

    closed spec fn view(&self) -> ConvertPlanModel {
        ConvertPlanModel {
            tempdir: self.tempdir@,
            destination: self.destination@,
            repo: self.repo@,
            make_bare: match self.make_bare {
                Some(plan) => Some(plan.inner@),
                None => None,
            },
            worktrees: entry_views(self.worktrees@),
            new_worktrees: new_worktree_views(self.new_worktrees@),
        }
    }
}

/// The entries of `chosen` and `list`, taken in the order `order`.
pub open spec fn spec_entries_in_order(
    chosen: Seq<Seq<char>>,
    list: Seq<WorktreeModel>,
    order: Seq<int>,
) -> Seq<EntryModel> {
    Seq::new(order.len(), |k: int| EntryModel { name: chosen[order[k]], worktree: list[order[k]] })
}

/// The paths of the worktrees of `entries`.
pub open spec fn entry_paths(entries: Seq<EntryModel>) -> Seq<Seq<char>> {
    entries.map_values(|entry: EntryModel| entry.worktree.path)
}

/// Whether the worktrees of `entries` are those of `list`, each with its name of
/// `chosen`, in an order in which a worktree comes before the worktrees it lies below.
pub open spec fn is_move_order(entries: Seq<EntryModel>, chosen: Seq<Seq<char>>, list: Seq<WorktreeModel>) -> bool {
    &&& exists|order: Seq<int>|
        #[trigger] is_index_permutation(order, list.len() as int) && entries == spec_entries_in_order(
            chosen,
            list,
            order,
        )
    &&& forall|a: int, b: int|
        0 <= a < entries.len() && 0 <= b < entries.len() && path_below(
            (#[trigger] entries[a]).worktree.path,
            (#[trigger] entries[b]).worktree.path,
        ) ==> a < b
}

/// The names that the worktrees of a conversion get: unique among themselves, none of
/// them the name of a new worktree, none of them the name of the destination
/// directory as it is.
pub open spec fn spec_plan_names(
    list: Seq<WorktreeModel>,
    destination: Seq<char>,
    new_worktrees: Seq<NewWorktreeModel>,
    rules: Seq<ReplacementModel>,
) -> Option<Seq<Seq<char>>> {
    spec_resolved(
        list,
        new_worktree_names(new_worktrees),
        seq![path_file_name(destination)->0],
        rules,
        list.len() as int,
    )
}

/// The names of a plan do not collide: the worktrees get names that differ from one
/// another and from the names of the new worktrees, as long as no new worktree is
/// named `.git`. So no worktree is moved to where another one goes.
pub proof fn lemma_plan_names_do_not_collide(
    list: Seq<WorktreeModel>,
    destination: Seq<char>,
    new_worktrees: Seq<NewWorktreeModel>,
    rules: Seq<ReplacementModel>,
)
    requires
        !new_worktree_names(new_worktrees).contains(".git"@),
    ensures
        spec_plan_names(list, destination, new_worktrees, rules) matches Some(chosen) ==> {
            &&& chosen.len() == list.len()
            &&& forall|j: int, k: int| 0 <= j < k < chosen.len() ==> chosen[j] != chosen[k]
            &&& forall|j: int, k: int|
                0 <= j < chosen.len() && 0 <= k < new_worktrees.len() ==> #[trigger] chosen[j]
                    != (#[trigger] new_worktrees[k]).name
        },
{
    let names = new_worktree_names(new_worktrees);
    lemma_resolved_names_are_unique(
        list,
        names,
        seq![path_file_name(destination)->0],
        rules,
        list.len() as int,
    );
    if let Some(chosen) = spec_plan_names(list, destination, new_worktrees, rules) {
        assert forall|j: int, k: int|
            0 <= j < chosen.len() && 0 <= k < new_worktrees.len() implies #[trigger] chosen[j]
            != (#[trigger] new_worktrees[k]).name by {
            assert(names[k] == new_worktrees[k].name);
            assert(!names.contains(chosen[j]));
        }
    }
}

/// The directory name that stands in the way of a conversion: the default branch has
/// no worktree and gets one, the main worktree is on another branch, and both
/// branches give the same directory name. The result holds that name, the branch of
/// the main worktree, and the default branch.
pub open spec fn spec_shared_dirname(
    list: Seq<WorktreeModel>,
    default_branch: BranchModel,
    rules: Seq<ReplacementModel>,
) -> Option<ConvertErrorModel> {
    let name = spec_dirname_for(rules, default_branch.branch_name());
    match list[0].head.branch() {
        Some(checked_out) => if !spec_has_worktree_for(list, default_branch) && checked_out
            != default_branch.branch_name() && spec_dirname_for(rules, checked_out) == name {
            Some(
                ConvertErrorModel::SharedDirectoryName {
                    name,
                    checked_out,
                    default_branch: default_branch.branch_name(),
                },
            )
        } else {
            None
        },
        None => None,
    }
}

/// The first reason for which no conversion can be planned, if there is one.
pub open spec fn spec_convert_error(
    repo: Seq<char>,
    list: Seq<WorktreeModel>,
    destination: Seq<char>,
    default_branch: BranchModel,
    new_worktrees: Seq<NewWorktreeModel>,
    rules: Seq<ReplacementModel>,
) -> Option<ConvertErrorModel> {
    if path_parent(repo) is None {
        Some(ConvertErrorModel::RepoHasNoParent(repo))
    } else if path_file_name(destination) is None {
        Some(ConvertErrorModel::DestinationHasNoBasename(destination))
    } else if spec_shared_dirname(list, default_branch, rules) is Some {
        spec_shared_dirname(list, default_branch, rules)
    } else if spec_plan_names(list, destination, new_worktrees, rules) is None {
        Some(
            ConvertErrorModel::NoUniqueName(
                list[spec_unnamed_index(
                    list,
                    new_worktree_names(new_worktrees),
                    seq![path_file_name(destination)->0],
                    rules,
                    list.len() as int,
                )].path,
            ),
        )
    } else if spec_first_relative(worktree_paths(list)) < list.len() {
        Some(
            ConvertErrorModel::RelativePath(
                worktree_paths(list)[spec_first_relative(worktree_paths(list))],
            ),
        )
    } else {
        None
    }
}

/// Whether `plan` is a plan of the conversion of the repository `repo` with the
/// worktrees `list`, into `destination` and by way of `tempdir`.
///
/// - No reason of [`spec_convert_error`] stands against the plan.
/// - The repository to convert is the parent of `repo`.
/// - The worktrees to create are those of [`spec_new_worktrees`].
/// - Every worktree has its name of [`spec_plan_names`], and the worktrees move in an
///   order in which a worktree comes before the worktrees it lies below.
/// - The repository is made bare unless the main worktree is bare already.
pub open spec fn spec_is_plan_of(
    plan: ConvertPlanModel,
    tempdir: Seq<char>,
    repo: Seq<char>,
    list: Seq<WorktreeModel>,
    destination: Seq<char>,
    default_branch: BranchModel,
    exists_local: bool,
    rules: Seq<ReplacementModel>,
) -> bool {
    let created = spec_new_worktrees(list, default_branch, exists_local, rules);
    let chosen = spec_plan_names(list, destination, created, rules);
    &&& spec_convert_error(repo, list, destination, default_branch, created, rules) is None
    &&& plan.tempdir == tempdir
    &&& plan.destination == destination
    &&& Some(plan.repo) == path_parent(repo)
    &&& plan.new_worktrees == created
    &&& chosen is Some
    &&& is_move_order(plan.worktrees, chosen->0, list)
    &&& plan.make_bare == if list[0].head is Bare {
        None
    } else {
        Some(EntryModel { name: chosen->0[0], worktree: list[0] })
    }
}

impl<'a> ConvertPlan<'a> {
    /// Where the worktrees go; see [`spec_destination`]. `explicit` is the destination
    /// that the user gave, made absolute; `common_parent` is the directory that the
    /// worktrees are alone in, if there is one.
    pub fn destination_plan(worktrees: &Worktrees, explicit: Option<String>, common_parent: Option<String>) -> (destination:
        Result<String, ConvertError>)
        ensures
            match destination {
                Ok(path) => spec_destination(
                    worktrees@,
                    crate::cli::text_view(explicit),
                    crate::cli::text_view(common_parent),
                ) == Ok::<_, ConvertErrorModel>(path@),
                Err(error) => spec_destination(
                    worktrees@,
                    crate::cli::text_view(explicit),
                    crate::cli::text_view(common_parent),
                ) == Err::<Seq<char>, _>(error@),
            },
    {
        if let Some(destination) = explicit {
            return Ok(destination);
        }
        let main = worktrees.main();
        if !main.head.is_bare() {
            if worktrees.len() > 1 {
                if let Some(common_parent) = common_parent {
                    return Ok(common_parent);
                }
            }
            return Ok(main.path.clone());
        }
        let basename = match file_name(main.path.as_str()) {
            Some(name) => name,
            None => {
                return Err(ConvertError::GitDirHasNoBasename(main.path.clone()));
            },
        };
        let above = match parent(main.path.as_str()) {
            Some(path) => path,
            None => {
                return Err(ConvertError::GitDirHasNoParent(main.path.clone()));
            },
        };
        if str_eq(basename.as_str(), ".git") {
            Ok(above)
        } else if has_suffix(basename.as_str(), ".git") {
            let length = basename.as_str().unicode_len();
            let suffix = ".git".unicode_len();
            let stripped = slice_to_string(basename.as_str(), 0, length - suffix);
            assert(stripped@ =~= basename@.take(basename@.len() - ".git"@.len()));
            Ok(join(above.as_str(), stripped.as_str()))
        } else {
            Ok(main.path.clone())
        }
    }

    /// The default branch that the user named with `--default-branch`; `resolved` is
    /// the ref that the repository resolved the name to, if any.
    pub fn explicit_default_branch(name: &str, resolved: Option<Ref>) -> (branch: Result<
        BranchRef,
        ConvertError,
    >)
        ensures
            match branch {
                Ok(found) => spec_explicit_default_branch(
                    name@,
                    match resolved {
                        Some(value) => Some(value@),
                        None => None,
                    },
                ) == Ok::<_, ConvertErrorModel>(found@),
                Err(error) => spec_explicit_default_branch(
                    name@,
                    match resolved {
                        Some(value) => Some(value@),
                        None => None,
                    },
                ) == Err::<BranchModel, _>(error@),
            },
    {
        match resolved {
            None => Err(ConvertError::DefaultBranchNotFound(name.to_owned())),
            Some(found) => match BranchRef::try_from(found) {
                Ok(branch) => Ok(branch),
                Err(other) => Err(ConvertError::DefaultBranchNotABranch(other.to_string())),
            },
        }
    }

    /// The local branch to ask the repository for, where the plan depends on whether
    /// it exists; see [`spec_needs_exists_local`].
    pub fn needs_exists_local(worktrees: &Worktrees, default_branch: &BranchRef) -> (name: Option<String>)
        ensures
            match name {
                Some(text) => spec_needs_exists_local(worktrees@, default_branch@) == Some(text@),
                None => spec_needs_exists_local(worktrees@, default_branch@) is None,
            },
    {
        proof {
            lemma_index_on_branch(worktrees@, default_branch@.branch_name(), 0);
        }
        if worktrees.for_branch(&default_branch.as_local()).is_some() {
            return None;
        }
        match default_branch {
            BranchRef::Local(_) => None,
            BranchRef::Remote(remote) => Some(remote.branch_name()),
        }
    }

    /// The guard against a worktree for the default branch that would take the
    /// directory name of the main worktree; see [`spec_shared_dirname`].
    fn shared_dirname(git: &AppGit<'_>, worktrees: &Worktrees, default_branch: &BranchRef) -> (found:
        Option<ConvertError>)
        ensures
            match found {
                Some(error) => spec_shared_dirname(
                    worktrees@,
                    default_branch@,
                    replacement_views(git.config.add.branch_replacements@),
                ) == Some(error@),
                None => spec_shared_dirname(
                    worktrees@,
                    default_branch@,
                    replacement_views(git.config.add.branch_replacements@),
                ) is None,
            },
    {
        proof {
            lemma_index_on_branch(worktrees@, default_branch@.branch_name(), 0);
        }
        let checked_out = match worktrees.main().head.branch() {
            Some(branch) => branch,
            None => {
                return None;
            },
        };
        if worktrees.for_branch(&default_branch.as_local()).is_some() {
            return None;
        }
        let default_name = default_branch.branch_name();
        if str_eq(checked_out.branch_name(), default_name.as_str()) {
            return None;
        }
        let name = dirname_for(&git.config.add.branch_replacements, default_name.as_str());
        let other = dirname_for(&git.config.add.branch_replacements, checked_out.branch_name());
        if str_eq(other.as_str(), name.as_str()) {
            Some(
                ConvertError::SharedDirectoryName {
                    name,
                    checked_out: checked_out.branch_name().to_owned(),
                    default_branch: default_name,
                },
            )
        } else {
            None
        }
    }

    fn new_worktrees_plan(
        git: &AppGit<'_>,
        worktrees: &Worktrees,
        default_branch: BranchRef,
        exists_local: bool,
    ) -> (plans: Vec<NewWorktreePlan>)
        ensures
            new_worktree_views(plans@) == spec_new_worktrees(
                worktrees@,
                default_branch@,
                exists_local,
                replacement_views(git.config.add.branch_replacements@),
            ),
    {
        proof {
            lemma_index_on_branch(worktrees@, default_branch@.branch_name(), 0);
        }
        let mut plans: Vec<NewWorktreePlan> = Vec::new();
        if worktrees.for_branch(&default_branch.as_local()).is_some() {
            assert(new_worktree_views(plans@) =~= Seq::empty());
            return plans;
        }
        let name = dirname_for(
            &git.config.add.branch_replacements,
            default_branch.branch_name().as_str(),
        );
        let plan = match default_branch {
            BranchRef::Local(local) => NewWorktreePlan {
                name,
                create_branch: None,
                start_point: BranchRef::Local(local),
            },
            BranchRef::Remote(remote) => {
                if exists_local {
                    NewWorktreePlan {
                        name,
                        create_branch: None,
                        start_point: BranchRef::Local(remote.as_local()),
                    }
                } else {
                    NewWorktreePlan {
                        name,
                        create_branch: Some(remote.as_local()),
                        start_point: BranchRef::Remote(remote),
                    }
                }
            },
        };
        plans.push(plan);
        assert(new_worktree_views(plans@) =~= seq![plan@]);
        plans
    }
}

impl<'a> ConvertPlan<'a> {
    #[verifier::type_invariant]
    spec fn main_is_not_bare(self) -> bool {
        self.make_bare matches Some(plan) ==> !(plan.inner@.worktree.head is Bare)
    }

    /// The `git` that the plan's commands are made of.
    pub closed spec fn git_model(&self) -> CommandModel {
        self.git.git@
    }

    /// Plans the conversion of a repository into a worktree repository.
    ///
    /// The plan keeps the temporary directory and the destination as they are given,
    /// and takes the parent of `inputs.repo` as the repository to convert. It creates
    /// a worktree for the default branch unless one exists; see
    /// [`spec_new_worktrees`]. It gives every worktree a name of its own, which is not
    /// the name of a new worktree and not the name of the destination as it is; see
    /// [`spec_plan_names`]. It moves the worktrees in an order in which a worktree
    /// comes before the worktrees it lies below. And it makes the repository bare
    /// unless the main worktree is bare already.
    ///
    /// See [`spec_is_plan_of`] for the plan in full. Fails for the first reason that
    /// [`spec_convert_error`] gives: among them, that
    /// the worktree for the default branch would take the directory name of the main
    /// worktree, which is on another branch; see [`spec_shared_dirname`].
    #[verifier::rlimit(50)]
    pub fn new(git: AppGit<'a>, inputs: ConvertInputs) -> (planned: Result<Self, ConvertError>)
        ensures
            well_formed(inputs.worktrees@),
            match planned {
                Ok(plan) => plan.git_model() == git.git@ && spec_is_plan_of(
                    plan@,
                    inputs.tempdir@,
                    inputs.repo@,
                    inputs.worktrees@,
                    inputs.destination@,
                    inputs.default_branch@,
                    inputs.default_branch_exists_locally,
                    replacement_views(git.config.add.branch_replacements@),
                ),
                Err(error) => spec_convert_error(
                    inputs.repo@,
                    inputs.worktrees@,
                    inputs.destination@,
                    inputs.default_branch@,
                    spec_new_worktrees(
                        inputs.worktrees@,
                        inputs.default_branch@,
                        inputs.default_branch_exists_locally,
                        replacement_views(git.config.add.branch_replacements@),
                    ),
                    replacement_views(git.config.add.branch_replacements@),
                ) == Some(error@),
            },
    {
        let ghost list = inputs.worktrees@;
        let ghost rules = replacement_views(git.config.add.branch_replacements@);
        let main_is_bare = inputs.worktrees.main().head.is_bare();
        let repo = match parent(inputs.repo.as_str()) {
            Some(path) => path,
            None => {
                return Err(ConvertError::RepoHasNoParent(inputs.repo));
            },
        };
        let destination_name = match file_name(inputs.destination.as_str()) {
            Some(name) => name,
            None => {
                return Err(ConvertError::DestinationHasNoBasename(inputs.destination));
            },
        };
        if let Some(error) = Self::shared_dirname(&git, &inputs.worktrees, &inputs.default_branch) {
            return Err(error);
        }
        let new_worktrees = Self::new_worktrees_plan(
            &git,
            &inputs.worktrees,
            inputs.default_branch,
            inputs.default_branch_exists_locally,
        );
        let ghost created = new_worktree_views(new_worktrees@);
        let mut names: Vec<String> = Vec::new();
        let mut k: usize = 0;
        while k < new_worktrees.len()
            invariant
                k <= new_worktrees@.len(),
                created == new_worktree_views(new_worktrees@),
                views(names@) == new_worktree_names(created).take(k as int),
            decreases new_worktrees@.len() - k,
        {
            let ghost before = views(names@);
            names.push(new_worktrees[k].name.clone());
            assert(views(names@) =~= before.push(new_worktrees@[k as int].name@));
            assert(views(names@) =~= new_worktree_names(created).take(k + 1));
            k = k + 1;
        }
        assert(new_worktree_names(created).take(k as int) =~= new_worktree_names(created));
        let mut directory_names: Vec<String> = Vec::new();
        directory_names.push(destination_name);
        assert(views(directory_names@) =~= seq![path_file_name(inputs.destination@)->0]);
        let renamed = match resolve_unique_worktree_names(
            &git.config.add.branch_replacements,
            ResolveUniqueNameOpts { worktrees: inputs.worktrees, names, directory_names },
        ) {
            Ok(renamed) => renamed,
            Err(error) => {
                return Err(ConvertError::NoUniqueName(error.path));
            },
        };
        let ghost chosen = renamed_names(renamed@);
        assert(renamed@.len() == list.len()) by {
            assert(renamed_worktrees(renamed@).len() == list.len());
        }
        let mut paths: Vec<String> = Vec::new();
        let mut k: usize = 0;
        while k < renamed.len()
            invariant
                k <= renamed@.len(),
                renamed_worktrees(renamed@) == list,
                views(paths@) == worktree_paths(list).take(k as int),
            decreases renamed@.len() - k,
        {
            let ghost before = views(paths@);
            paths.push(renamed[k].worktree.path.clone());
            assert(renamed_worktrees(renamed@)[k as int] == renamed@[k as int].worktree@);
            assert(views(paths@) =~= before.push(list[k as int].path));
            assert(views(paths@) =~= worktree_paths(list).take(k + 1));
            k = k + 1;
        }
        assert(worktree_paths(list).take(k as int) =~= worktree_paths(list));
        let order = match topological_order(&paths) {
            Ok(order) => order,
            Err(error) => {
                proof {
                    let at = spec_first_relative(views(paths@));
                    lemma_first_relative(views(paths@));
                    assert(views(paths@)[at] == paths@[at]@);
                    assert(spec_plan_names(list, inputs.destination@, created, rules) == Some(chosen));
                }
                return Err(ConvertError::RelativePath(error.path));
            },
        };
        proof {
            assert forall|a: int| 0 <= a < order@.len() implies (#[trigger] order@[a]) < list.len() by {
                assert(as_ints(order@)[a] == order@[a]);
            }
        }
        let ghost by = as_ints(order@);
        let mut worktrees: Vec<WorktreePlan> = Vec::new();
        let mut k: usize = 0;
        while k < order.len()
            invariant
                k <= order@.len(),
                order@.len() == list.len(),
                renamed@.len() == list.len(),
                renamed_worktrees(renamed@) == list,
                renamed_names(renamed@) == chosen,
                by == as_ints(order@),
                forall|a: int| 0 <= a < order@.len() ==> (#[trigger] order@[a]) < list.len(),
                entry_views(worktrees@) == spec_entries_in_order(chosen, list, by).take(k as int),
            decreases order@.len() - k,
        {
            let ghost before = entry_views(worktrees@);
            let at = order[k];
            let plan = WorktreePlan::from(renamed[at].clone());
            proof {
                assert(renamed_worktrees(renamed@)[at as int] == renamed@[at as int].worktree@);
                assert(renamed_names(renamed@)[at as int] == renamed@[at as int].name@);
                assert(by[k as int] == at);
            }
            worktrees.push(plan);
            assert(entry_views(worktrees@) =~= before.push(plan@));
            assert(entry_views(worktrees@) =~= spec_entries_in_order(chosen, list, by).take(k + 1));
            k = k + 1;
        }
        proof {
            let all = spec_entries_in_order(chosen, list, by);
            assert(all.take(k as int) =~= all);
            assert(is_index_permutation(by, list.len() as int));
            assert forall|a: int, b: int|
                0 <= a < all.len() && 0 <= b < all.len() && path_below(
                    (#[trigger] all[a]).worktree.path,
                    (#[trigger] all[b]).worktree.path,
                ) implies a < b by {
                assert(by[a] == order@[a] && by[b] == order@[b]);
                assert(paths@[order@[a] as int]@ == views(paths@)[order@[a] as int]);
                assert(paths@[order@[b] as int]@ == views(paths@)[order@[b] as int]);
                assert(worktree_paths(list)[order@[a] as int] == list[order@[a] as int].path);
                assert(worktree_paths(list)[order@[b] as int] == list[order@[b] as int].path);
            }
        }
        assert(renamed_worktrees(renamed@)[0] == renamed@[0].worktree@);
        assert(renamed_names(renamed@)[0] == renamed@[0].name@);
        let make_bare = if renamed[0].worktree.head.is_bare() {
            None
        } else {
            Some(MainWorktreePlan { inner: WorktreePlan::from(renamed[0].clone()) })
        };
        Ok(
            ConvertPlan {
                git,
                tempdir: inputs.tempdir,
                destination: inputs.destination,
                repo,
                make_bare,
                worktrees,
                new_worktrees,
            },
        )
    }

    /// The temporary directory where worktrees are placed while the repository is
    /// rearranged.
    pub fn tempdir(&self) -> (path: &str)
        ensures
            path@ == self@.tempdir,
    {
        self.tempdir.as_str()
    }

    /// The destination where the worktree container is created.
    pub fn destination(&self) -> (path: &str)
        ensures
            path@ == self@.destination,
    {
        self.destination.as_str()
    }

    /// The path of the repository to create.
    pub fn repo(&self) -> (path: &str)
        ensures
            path@ == self@.repo,
    {
        self.repo.as_str()
    }

    /// The plan for converting the repository to a bare repository, unless it is one.
    pub fn make_bare(&self) -> (plan: Option<&MainWorktreePlan>)
        ensures
            match plan {
                Some(main) => self@.make_bare == Some(main.inner@) && !(main.inner@.worktree.head is Bare),
                None => self@.make_bare is None,
            },
    {
        proof {
            use_type_invariant(self);
        }
        match &self.make_bare {
            Some(plan) => Some(plan),
            None => None,
        }
    }

    /// The plans for renaming the worktrees, in the order of the moves.
    pub fn worktrees(&self) -> (plans: &Vec<WorktreePlan>)
        ensures
            entry_views(plans@) == self@.worktrees,
    {
        &self.worktrees
    }

    /// The new worktrees to create.
    pub fn new_worktrees(&self) -> (plans: &Vec<NewWorktreePlan>)
        ensures
            new_worktree_views(plans@) == self@.new_worktrees,
    {
        &self.new_worktrees
    }
}

/// The mathematical value of a [`ConvertStep`].
pub enum StepModel {
    Rename { from: Seq<char>, to: Seq<char> },
    CreateDirAll(Seq<char>),
    RemoveDir(Seq<char>),
    Git(CommandModel),
}

/// One step of a conversion, for whoever carries it out. A step that fails ends the
/// conversion; nothing is undone.
#[derive(Debug, PartialEq, Eq)]
pub enum ConvertStep {
    /// Rename the directory `from` to `to`.
    Rename { from: String, to: String },
    /// Create the directory and its parents, unless it exists.
    CreateDirAll(String),
    /// Remove the empty directory.
    RemoveDir(String),
    /// Run the `git` command.
    Git(GitCommand),
}

impl View for ConvertStep {
    type V = StepModel;

    open spec fn view(&self) -> StepModel {
        match self {
            ConvertStep::Rename { from, to } => StepModel::Rename { from: from@, to: to@ },
            ConvertStep::CreateDirAll(path) => StepModel::CreateDirAll(path@),
            ConvertStep::RemoveDir(path) => StepModel::RemoveDir(path@),
            ConvertStep::Git(command) => StepModel::Git(command@),
        }
    }
}

/// The views of the steps of `steps`.
pub open spec fn step_views(steps: Seq<ConvertStep>) -> Seq<StepModel> {
    steps.map_values(|step: ConvertStep| step@)
}

impl EntryModel {
    /// Where the worktree is placed in the temporary directory.
    pub open spec fn temp_destination(self, plan: ConvertPlanModel) -> Seq<char> {
        path_join(plan.tempdir, self.name)
    }

    /// Where the worktree is placed in the end.
    pub open spec fn destination(self, plan: ConvertPlanModel) -> Seq<char> {
        path_join(plan.destination, self.name)
    }

    /// What names the commit or branch of the worktree for `git worktree add`.
    pub open spec fn start_point(self) -> Option<Seq<char>> {
        match self.worktree.head.commitish() {
            Some(commitish) => Some(commitish.short()),
            None => None,
        }
    }
}

impl NewWorktreeModel {
    /// Where the new worktree is created.
    pub open spec fn destination(self, plan: ConvertPlanModel) -> Seq<char> {
        path_join(plan.destination, self.name)
    }

    /// The options of `git worktree add` for the new worktree.
    pub open spec fn options(self) -> AddOptsModel {
        AddOptsModel {
            track: self.create_branch is Some,
            create_branch: self.create_branch,
            start_point: Some(self.start_point.qualified_branch_name()),
            ..AddOptsModel::default()
        }
    }

    /// The refspec that fetches the branch to create: from the branch on the remote
    /// to the remote-tracking branch.
    pub open spec fn refspec(self) -> Seq<char> {
        (RefModel { kind: "heads"@, name: self.create_branch->0 }).qualified() + ":"@
            + self.start_point.as_ref().qualified()
    }
}

/// The steps that fetch the branches that the first `upto` new worktrees create.
pub open spec fn spec_fetch_steps(
    created: Seq<NewWorktreeModel>,
    git: CommandModel,
    upto: int,
) -> Seq<StepModel>
    decreases upto,
{
    if upto <= 0 {
        Seq::empty()
    } else {
        let plan = created[upto - 1];
        spec_fetch_steps(created, git, upto - 1) + if plan.create_branch is Some {
            seq![
                StepModel::Git(
                    git.with_args(
                        seq![
                            "fetch"@,
                            spec_remote_of(plan.start_point.qualified_branch_name()),
                            plan.refspec(),
                        ],
                    ),
                ),
            ]
        } else {
            Seq::empty()
        }
    }
}

impl ConvertPlanModel {
    /// Whether nothing is left to do: the repository is bare, no worktree is to be
    /// created, and every worktree is where it belongs.
    pub open spec fn is_no_op(self) -> bool {
        &&& self.make_bare is None
        &&& self.new_worktrees.len() == 0
        &&& forall|k: int|
            0 <= k < self.worktrees.len() ==> same_path(
                (#[trigger] self.worktrees[k]).worktree.path,
                self.worktrees[k].destination(self),
            )
    }

    /// Separating the `.git` directory from its worktree and making it bare.
    pub open spec fn strip_steps(self, git: CommandModel) -> Seq<StepModel> {
        match self.make_bare {
            Some(main) => seq![
                StepModel::Rename {
                    from: path_join(main.worktree.path, ".git"@),
                    to: path_join(self.tempdir, ".git"@),
                },
                StepModel::Git(
                    git.in_dir(path_join(self.tempdir, ".git"@)).with_args(
                        seq!["config"@, "set"@, "core.bare"@, "true"@],
                    ),
                ),
            ],
            None => Seq::empty(),
        }
    }

    /// Moving the worktrees into the temporary directory.
    pub open spec fn move_out_steps(self) -> Seq<StepModel> {
        Seq::new(
            self.worktrees.len(),
            |k: int|
                StepModel::Rename {
                    from: self.worktrees[k].worktree.path,
                    to: self.worktrees[k].temp_destination(self),
                },
        )
    }

    /// Moving the `.git` directory into place and making the main worktree a worktree
    /// of it: it is added without a checkout, its index is reset, and its `.git` file
    /// joins the files that wait in the temporary directory.
    pub open spec fn attach_steps(self, git: CommandModel) -> Seq<StepModel> {
        match self.make_bare {
            Some(main) => seq![
                StepModel::Rename {
                    from: path_join(self.tempdir, ".git"@),
                    to: path_join(self.destination, ".git"@),
                },
                StepModel::Git(
                    git.in_dir(path_join(self.destination, ".git"@)).with_args(
                        (AddOptsModel {
                            checkout: false,
                            start_point: main.start_point(),
                            ..AddOptsModel::default()
                        }).args(main.destination(self)),
                    ),
                ),
                StepModel::Git(git.in_dir(main.destination(self)).with_args(seq!["reset"@])),
                StepModel::Rename {
                    from: path_join(main.destination(self), ".git"@),
                    to: path_join(main.temp_destination(self), ".git"@),
                },
                StepModel::RemoveDir(main.destination(self)),
            ],
            None => Seq::empty(),
        }
    }

    /// Moving the worktrees from the temporary directory to where they belong.
    pub open spec fn move_in_steps(self) -> Seq<StepModel> {
        Seq::new(
            self.worktrees.len(),
            |k: int|
                StepModel::Rename {
                    from: self.worktrees[k].temp_destination(self),
                    to: self.worktrees[k].destination(self),
                },
        )
    }

    /// Where the worktrees belong, in the order of the moves.
    pub open spec fn destinations(self) -> Seq<Seq<char>> {
        Seq::new(self.worktrees.len(), |k: int| self.worktrees[k].destination(self))
    }

    /// Repairing the worktrees at their new paths.
    pub open spec fn repair_step(self, git: CommandModel) -> StepModel {
        StepModel::Git(
            git.in_dir(self.destination).with_args(
                seq!["worktree"@, "repair"@] + self.destinations(),
            ),
        )
    }

    /// Creating the new worktrees.
    pub open spec fn add_steps(self, git: CommandModel) -> Seq<StepModel> {
        Seq::new(
            self.new_worktrees.len(),
            |k: int|
                StepModel::Git(
                    git.in_dir(self.destination).with_args(
                        self.new_worktrees[k].options().args(self.new_worktrees[k].destination(self)),
                    ),
                ),
        )
    }

    /// The steps of the conversion, in order; none where nothing is left to do.
    ///
    /// 1. Fetch the default branch, where a local branch is created for it.
    /// 2. Move `.git` to the temporary directory and mark it as bare.
    /// 3. Move the worktrees to the temporary directory.
    /// 4. Create the destination.
    /// 5. Move `.git` into the destination and attach the main worktree to it.
    /// 6. Move the worktrees from the temporary directory to the destination.
    /// 7. Repair the worktrees' links.
    /// 8. Create the new worktrees.
    ///
    /// Steps 2 and 5 are left out for a repository that is bare already.
    pub open spec fn steps(self, git: CommandModel) -> Seq<StepModel> {
        if self.is_no_op() {
            Seq::empty()
        } else {
            spec_fetch_steps(self.new_worktrees, git, self.new_worktrees.len() as int)
                + self.strip_steps(git) + self.move_out_steps() + seq![
                StepModel::CreateDirAll(self.destination),
            ] + self.attach_steps(git) + self.move_in_steps() + seq![self.repair_step(git)]
                + self.add_steps(git)
        }
    }
}

/// The conversion, in place, of a repository with one worktree that has the default
/// branch checked out, where the branch's directory name is not `.git`.
///
/// Without a destination of the user's, the worktrees go to the path of the
/// worktree. The `.git` directory is made bare and becomes `.git` below that path;
/// the worktree becomes the directory of its branch's name below that path, still on
/// its branch; and no other worktree is created. So the steps leave a bare main
/// worktree and one worktree on the default branch.
pub proof fn lemma_single_worktree_plan(
    plan: ConvertPlanModel,
    tempdir: Seq<char>,
    repo: Seq<char>,
    list: Seq<WorktreeModel>,
    default_branch: BranchModel,
    exists_local: bool,
    rules: Seq<ReplacementModel>,
    common_parent: Option<Seq<char>>,
    git: CommandModel,
)
    requires
        list.len() == 1,
        list[0].head.branch() == Some(default_branch.branch_name()),
        spec_dirname_for(rules, default_branch.branch_name()) != ".git"@,
        spec_is_plan_of(plan, tempdir, repo, list, list[0].path, default_branch, exists_local, rules),
    ensures
        spec_destination(list, None, common_parent) == Ok::<_, ConvertErrorModel>(list[0].path),
        ({
            let branch = default_branch.branch_name();
            let name = spec_dirname_for(rules, branch);
            let main = EntryModel { name, worktree: list[0] };
            let root = list[0].path;
            let moved = path_join(root, name);
            let waiting = path_join(tempdir, name);
            &&& plan.make_bare == Some(main)
            &&& plan.worktrees == seq![main]
            &&& plan.new_worktrees.len() == 0
            &&& plan.steps(git) == seq![
                StepModel::Rename {
                    from: path_join(root, ".git"@),
                    to: path_join(tempdir, ".git"@),
                },
                StepModel::Git(
                    git.in_dir(path_join(tempdir, ".git"@)).with_args(
                        seq!["config"@, "set"@, "core.bare"@, "true"@],
                    ),
                ),
                StepModel::Rename { from: root, to: waiting },
                StepModel::CreateDirAll(root),
                StepModel::Rename {
                    from: path_join(tempdir, ".git"@),
                    to: path_join(root, ".git"@),
                },
                StepModel::Git(
                    git.in_dir(path_join(root, ".git"@)).with_args(
                        seq!["worktree"@, "add"@, "--no-checkout"@, moved, branch],
                    ),
                ),
                StepModel::Git(git.in_dir(moved).with_args(seq!["reset"@])),
                StepModel::Rename {
                    from: path_join(moved, ".git"@),
                    to: path_join(waiting, ".git"@),
                },
                StepModel::RemoveDir(moved),
                StepModel::Rename { from: waiting, to: moved },
                StepModel::Git(git.in_dir(root).with_args(seq!["worktree"@, "repair"@, moved])),
            ]
        }),
{
    let branch = default_branch.branch_name();
    let name = spec_dirname_for(rules, branch);
    let main = EntryModel { name, worktree: list[0] };
    let root = list[0].path;
    let moved = path_join(root, name);
    let created = spec_new_worktrees(list, default_branch, exists_local, rules);
    assert(created.len() == 0) by {
        lemma_index_on_branch(list, branch, 0);
    }
    let reserved = new_worktree_names(created).push(".git"@) + Seq::<Seq<char>>::empty();
    assert(reserved =~= seq![".git"@]);
    assert(!reserved.contains(name)) by {
        if reserved.contains(name) {
            let at = choose|at: int| 0 <= at < reserved.len() && reserved[at] == name;
            assert(reserved[at] == ".git"@);
        }
    }
    let chosen = spec_plan_names(list, root, created, rules);
    assert(chosen == Some(seq![name])) by {
        let excluded = seq![path_file_name(root)->0];
        let names = new_worktree_names(created);
        assert(spec_resolved(list, names, excluded, rules, 0) == Some(Seq::<Seq<char>>::empty()));
        assert(spec_pick(list[0], reserved, excluded, rules) == Some(name));
        assert(Seq::<Seq<char>>::empty().push(name) =~= seq![name]);
    }
    assert(plan.worktrees == seq![main]) by {
        let order = choose|order: Seq<int>|
            #[trigger] is_index_permutation(order, list.len() as int) && plan.worktrees
                == spec_entries_in_order(chosen->0, list, order);
        assert(order[0] == 0);
        assert(plan.worktrees =~= seq![main]);
    }
    assert(plan.make_bare == Some(main));
    assert(main.start_point() == Some(branch));
    let options = AddOptsModel {
        checkout: false,
        start_point: main.start_point(),
        ..AddOptsModel::default()
    };
    assert(options.args(moved) =~= seq!["worktree"@, "add"@, "--no-checkout"@, moved, branch]);
    assert(seq!["worktree"@, "repair"@] + plan.destinations() =~= seq![
        "worktree"@,
        "repair"@,
        moved,
    ]);
    assert(spec_fetch_steps(plan.new_worktrees, git, 0) =~= Seq::<StepModel>::empty());
    assert(plan.add_steps(git) =~= Seq::<StepModel>::empty());
    assert(plan.move_out_steps() =~= seq![
        StepModel::Rename { from: root, to: path_join(tempdir, name) },
    ]);
    assert(plan.move_in_steps() =~= seq![
        StepModel::Rename { from: path_join(tempdir, name), to: moved },
    ]);
    assert(!plan.is_no_op());
}

fn append_steps(all: &mut Vec<ConvertStep>, part: Vec<ConvertStep>)
    ensures
        step_views(final(all)@) == step_views(old(all)@) + step_views(part@),
{
    let mut part = part;
    let ghost added = step_views(part@);
    all.append(&mut part);
    assert(step_views(all@) =~= step_views(old(all)@) + added);
}

fn push_step(all: &mut Vec<ConvertStep>, step: ConvertStep)
    ensures
        step_views(final(all)@) == step_views(old(all)@).push(step@),
{
    all.push(step);
    assert(step_views(all@) =~= step_views(old(all)@).push(step@));
}

impl<'a> ConvertPlan<'a> {
    /// Whether nothing is left to do; see [`ConvertPlanModel::is_no_op`].
    pub fn is_no_op(&self) -> (no_op: bool)
        ensures
            no_op == self@.is_no_op(),
    {
        if self.make_bare.is_some() || self.new_worktrees.len() > 0 {
            return false;
        }
        let mut k: usize = 0;
        while k < self.worktrees.len()
            invariant
                k <= self.worktrees@.len(),
                forall|j: int|
                    0 <= j < k ==> same_path(
                        (#[trigger] self@.worktrees[j]).worktree.path,
                        self@.worktrees[j].destination(self@),
                    ),
            decreases self.worktrees@.len() - k,
        {
            let plan = &self.worktrees[k];
            assert(self@.worktrees[k as int] == plan@);
            let destination = join(self.destination.as_str(), plan.name.as_str());
            if !is_same_path(plan.worktree.path.as_str(), destination.as_str()) {
                return false;
            }
            k = k + 1;
        }
        true
    }

    fn fetch_steps(&self) -> (steps: Vec<ConvertStep>)
        ensures
            step_views(steps@) == spec_fetch_steps(
                self@.new_worktrees,
                self.git_model(),
                self@.new_worktrees.len() as int,
            ),
    {
        let mut steps: Vec<ConvertStep> = Vec::new();
        let mut k: usize = 0;
        assert(step_views(steps@) =~= Seq::empty());
        while k < self.new_worktrees.len()
            invariant
                k <= self.new_worktrees@.len(),
                step_views(steps@) == spec_fetch_steps(self@.new_worktrees, self.git_model(), k as int),
            decreases self.new_worktrees@.len() - k,
        {
            let plan = &self.new_worktrees[k];
            assert(self@.new_worktrees[k as int] == plan@);
            let ghost before = step_views(steps@);
            if let Some(branch) = &plan.create_branch {
                let mut refspec = branch.to_qualified_string();
                refspec.append(":");
                refspec.append(plan.start_point.to_qualified_string().as_str());
                let remote = crate::final_component::first_component(
                    plan.start_point.qualified_branch_name(),
                );
                let command = self.git.git.command().arg("fetch").arg(remote.as_str()).arg(
                    refspec.as_str(),
                );
                assert(command@.args =~= self.git_model().args + seq![
                    "fetch"@,
                    remote@,
                    refspec@,
                ]);
                push_step(&mut steps, ConvertStep::Git(command));
            } else {
                assert(before + Seq::<StepModel>::empty() =~= before);
            }
            k = k + 1;
        }
        steps
    }

    fn strip_steps(&self) -> (steps: Vec<ConvertStep>)
        ensures
            step_views(steps@) == self@.strip_steps(self.git_model()),
    {
        let mut steps: Vec<ConvertStep> = Vec::new();
        if let Some(main) = &self.make_bare {
            let temp_git = join(self.tempdir.as_str(), ".git");
            let command = self.git.git.command().current_dir(temp_git.as_str()).arg("config").arg(
                "set",
            ).arg("core.bare").arg("true");
            assert(command@.args =~= self.git_model().args + seq![
                "config"@,
                "set"@,
                "core.bare"@,
                "true"@,
            ]);
            steps.push(
                ConvertStep::Rename {
                    from: join(main.inner.worktree.path.as_str(), ".git"),
                    to: temp_git,
                },
            );
            steps.push(ConvertStep::Git(command));
        }
        assert(step_views(steps@) =~= self@.strip_steps(self.git_model()));
        steps
    }

    fn move_steps(&self, back: bool) -> (steps: Vec<ConvertStep>)
        ensures
            step_views(steps@) == if back {
                self@.move_in_steps()
            } else {
                self@.move_out_steps()
            },
    {
        let mut steps: Vec<ConvertStep> = Vec::new();
        let mut k: usize = 0;
        let ghost wanted = if back {
            self@.move_in_steps()
        } else {
            self@.move_out_steps()
        };
        assert(step_views(steps@) =~= wanted.take(0));
        while k < self.worktrees.len()
            invariant
                k <= self.worktrees@.len(),
                wanted == if back {
                    self@.move_in_steps()
                } else {
                    self@.move_out_steps()
                },
                step_views(steps@) == wanted.take(k as int),
            decreases self.worktrees@.len() - k,
        {
            let plan = &self.worktrees[k];
            assert(self@.worktrees[k as int] == plan@);
            let temp = join(self.tempdir.as_str(), plan.name.as_str());
            let step = if back {
                ConvertStep::Rename { from: temp, to: join(self.destination.as_str(), plan.name.as_str()) }
            } else {
                ConvertStep::Rename { from: plan.worktree.path.clone(), to: temp }
            };
            push_step(&mut steps, step);
            assert(step_views(steps@) =~= wanted.take(k + 1));
            k = k + 1;
        }
        assert(wanted.take(k as int) =~= wanted);
        steps
    }

    fn attach_steps(&self) -> (steps: Vec<ConvertStep>)
        ensures
            step_views(steps@) == self@.attach_steps(self.git_model()),
    {
        let mut steps: Vec<ConvertStep> = Vec::new();
        if let Some(main) = &self.make_bare {
            let git_destination = join(self.destination.as_str(), ".git");
            let destination = join(self.destination.as_str(), main.inner.name.as_str());
            let temp = join(self.tempdir.as_str(), main.inner.name.as_str());
            let start = match main.inner.worktree.head.commitish() {
                Some(commitish) => Some(commitish.to_string()),
                None => None,
            };
            let options = AddWorktreeOpts {
                force_branch: false,
                create_branch: None,
                checkout: false,
                guess_remote: false,
                track: false,
                start_point: match &start {
                    Some(text) => Some(text.as_str()),
                    None => None,
                },
                detach: false,
            };
            let app = self.git.with_current_dir(git_destination.clone());
            let add = GitWorktree::new(&app).add(destination.as_str(), &options);
            let reset = self.git.git.with_current_dir(destination.clone()).reset();
            steps.push(
                ConvertStep::Rename { from: join(self.tempdir.as_str(), ".git"), to: git_destination },
            );
            steps.push(ConvertStep::Git(add));
            steps.push(ConvertStep::Git(reset));
            steps.push(
                ConvertStep::Rename {
                    from: join(destination.as_str(), ".git"),
                    to: join(temp.as_str(), ".git"),
                },
            );
            steps.push(ConvertStep::RemoveDir(destination));
        }
        assert(step_views(steps@) =~= self@.attach_steps(self.git_model()));
        steps
    }

    fn repair_step(&self) -> (step: ConvertStep)
        ensures
            step@ == self@.repair_step(self.git_model()),
    {
        let mut paths: Vec<String> = Vec::new();
        let mut k: usize = 0;
        assert(views(paths@) =~= self@.destinations().take(0));
        while k < self.worktrees.len()
            invariant
                k <= self.worktrees@.len(),
                views(paths@) == self@.destinations().take(k as int),
            decreases self.worktrees@.len() - k,
        {
            let plan = &self.worktrees[k];
            assert(self@.worktrees[k as int] == plan@);
            let ghost before = views(paths@);
            paths.push(join(self.destination.as_str(), plan.name.as_str()));
            assert(views(paths@) =~= before.push(plan@.destination(self@)));
            assert(views(paths@) =~= self@.destinations().take(k + 1));
            k = k + 1;
        }
        assert(self@.destinations().take(k as int) =~= self@.destinations());
        let app = self.git.with_current_dir(self.destination.clone());
        ConvertStep::Git(GitWorktree::new(&app).repair(&paths))
    }

    fn add_steps(&self) -> (steps: Vec<ConvertStep>)
        ensures
            step_views(steps@) == self@.add_steps(self.git_model()),
    {
        let mut steps: Vec<ConvertStep> = Vec::new();
        let app = self.git.with_current_dir(self.destination.clone());
        let worktree = GitWorktree::new(&app);
        let ghost wanted = self@.add_steps(self.git_model());
        let mut k: usize = 0;
        assert(step_views(steps@) =~= wanted.take(0));
        while k < self.new_worktrees.len()
            invariant
                k <= self.new_worktrees@.len(),
                wanted == self@.add_steps(self.git_model()),
                worktree.command() == self.git_model().in_dir(self@.destination),
                step_views(steps@) == wanted.take(k as int),
            decreases self.new_worktrees@.len() - k,
        {
            let plan = &self.new_worktrees[k];
            assert(self@.new_worktrees[k as int] == plan@);
            let options = AddWorktreeOpts {
                force_branch: false,
                create_branch: match &plan.create_branch {
                    Some(branch) => Some(branch),
                    None => None,
                },
                checkout: true,
                guess_remote: false,
                track: plan.create_branch.is_some(),
                start_point: Some(plan.start_point.qualified_branch_name()),
                detach: false,
            };
            let destination = join(self.destination.as_str(), plan.name.as_str());
            push_step(&mut steps, ConvertStep::Git(worktree.add(destination.as_str(), &options)));
            assert(step_views(steps@) =~= wanted.take(k + 1));
            k = k + 1;
        }
        assert(wanted.take(k as int) =~= wanted);
        steps
    }

    /// The steps that carry out the plan, in order; see [`ConvertPlanModel::steps`].
    ///
    /// The plan decides, and whoever runs the steps acts; see [`Self::steps_to_run`]
    /// for what is left of them in a dry run.
    pub fn execute(&self) -> (steps: Vec<ConvertStep>)
        ensures
            step_views(steps@) == self@.steps(self.git_model()),
    {
        let mut steps: Vec<ConvertStep> = Vec::new();
        if self.is_no_op() {
            assert(step_views(steps@) =~= Seq::empty());
            return steps;
        }
        assert(step_views(steps@) =~= Seq::empty());
        append_steps(&mut steps, self.fetch_steps());
        append_steps(&mut steps, self.strip_steps());
        append_steps(&mut steps, self.move_steps(false));
        push_step(&mut steps, ConvertStep::CreateDirAll(self.destination.clone()));
        append_steps(&mut steps, self.attach_steps());
        append_steps(&mut steps, self.move_steps(true));
        push_step(&mut steps, self.repair_step());
        append_steps(&mut steps, self.add_steps());
        assert(step_views(steps@) =~= self@.steps(self.git_model()));
        steps
    }

    /// The steps to carry out now: those of [`Self::execute`], and none in a dry run,
    /// in which the plan is shown and the repository is left as it is.
    pub fn steps_to_run(&self, dry_run: bool) -> (steps: Vec<ConvertStep>)
        ensures
            step_views(steps@) == if dry_run {
                Seq::<StepModel>::empty()
            } else {
                self@.steps(self.git_model())
            },
    {
        if dry_run {
            let steps: Vec<ConvertStep> = Vec::new();
            assert(step_views(steps@) =~= Seq::<StepModel>::empty());
            steps
        } else {
            self.execute()
        }
    }
}

/// The lines that show the moves of the first `upto` worktrees of `plan`: one for
/// each worktree that is not where it belongs.
pub open spec fn spec_move_lines(plan: ConvertPlanModel, upto: int) -> Seq<Seq<char>>
    decreases upto,
{
    if upto <= 0 {
        Seq::empty()
    } else {
        let entry = plan.worktrees[upto - 1];
        let before = spec_move_lines(plan, upto - 1);
        if same_path(entry.worktree.path, entry.destination(plan)) {
            before
        } else {
            before.push(entry.worktree.path + " -> "@ + entry.destination(plan))
        }
    }
}

impl ConvertPlanModel {
    /// The lines that show the moves of the worktrees.
    pub open spec fn move_lines(self) -> Seq<Seq<char>> {
        spec_move_lines(self, self.worktrees.len() as int)
    }

    /// The lines that show the new worktrees.
    pub open spec fn new_worktree_lines(self) -> Seq<Seq<char>> {
        Seq::new(
            self.new_worktrees.len(),
            |k: int|
                self.new_worktrees[k].start_point.qualified_branch_name() + " in "@
                    + self.new_worktrees[k].destination(self),
        )
    }

    /// What is said about the moves of the worktrees.
    pub open spec fn describe_moves(self) -> Seq<char> {
        if self.move_lines().len() > 0 {
            "\nI'll move the following worktrees to new locations:\n"@
                + spec_format_bulleted_list_multiline(self.move_lines())
        } else {
            Seq::empty()
        }
    }

    /// What is said about the new worktrees.
    pub open spec fn describe_new_worktrees(self) -> Seq<char> {
        if self.new_worktrees.len() > 0 {
            "\nI'll"@ + (if self.move_lines().len() == 0 {
                ""@
            } else {
                " also"@
            }) + " create new worktrees for the following branches:\n"@
                + spec_format_bulleted_list_multiline(self.new_worktree_lines())
        } else {
            Seq::empty()
        }
    }

    /// What is said about making the repository bare.
    pub open spec fn describe_make_bare(self) -> Seq<char> {
        let additionally = if self.move_lines().len() == 0 && self.new_worktrees.len() == 0 {
            ""@
        } else {
            "Additionally, "@
        };
        match self.make_bare {
            Some(main) => {
                let git_dir = path_join(main.worktree.path, ".git"@);
                let git_destination = path_join(self.destination, ".git"@);
                if !same_path(git_dir, git_destination) {
                    "\n"@ + additionally
                        + "I'll move the Git directory and convert the repository to a bare repository:\n"@
                        + spec_format_bulleted_list_multiline(
                        seq![git_dir + " -> "@ + git_destination],
                    )
                } else {
                    "\n"@ + additionally + "I'll convert the repository to a bare repository."@
                }
            },
            None => Seq::empty(),
        }
    }

    /// The plan as it is shown.
    pub open spec fn describe(self) -> Seq<char> {
        if self.is_no_op() {
            self.repo + " is already a worktree repository"@
        } else {
            "Converting "@ + self.repo + " to a worktree repository"@ + (if same_path(
                self.repo,
                self.destination,
            ) {
                ""@
            } else {
                " at "@ + self.destination
            }) + "."@ + self.describe_moves() + self.describe_new_worktrees()
                + self.describe_make_bare()
        }
    }
}

impl<'a> ConvertPlan<'a> {
    fn move_lines(&self) -> (found: Vec<String>)
        ensures
            views(found@) == self@.move_lines(),
    {
        let mut found: Vec<String> = Vec::new();
        let mut k: usize = 0;
        assert(views(found@) =~= spec_move_lines(self@, 0));
        while k < self.worktrees.len()
            invariant
                k <= self.worktrees@.len(),
                views(found@) == spec_move_lines(self@, k as int),
            decreases self.worktrees@.len() - k,
        {
            let plan = &self.worktrees[k];
            assert(self@.worktrees[k as int] == plan@);
            let destination = join(self.destination.as_str(), plan.name.as_str());
            if !is_same_path(plan.worktree.path.as_str(), destination.as_str()) {
                let mut line = plan.worktree.path.clone();
                line.append(" -> ");
                line.append(destination.as_str());
                let ghost before = views(found@);
                found.push(line);
                assert(views(found@) =~= before.push(line@));
            }
            k = k + 1;
        }
        found
    }

    fn new_worktree_lines(&self) -> (found: Vec<String>)
        ensures
            views(found@) == self@.new_worktree_lines(),
    {
        let mut found: Vec<String> = Vec::new();
        let mut k: usize = 0;
        assert(views(found@) =~= self@.new_worktree_lines().take(0));
        while k < self.new_worktrees.len()
            invariant
                k <= self.new_worktrees@.len(),
                views(found@) == self@.new_worktree_lines().take(k as int),
            decreases self.new_worktrees@.len() - k,
        {
            let plan = &self.new_worktrees[k];
            assert(self@.new_worktrees[k as int] == plan@);
            let mut line = plan.start_point.qualified_branch_name().to_owned();
            line.append(" in ");
            line.append(join(self.destination.as_str(), plan.name.as_str()).as_str());
            let ghost before = views(found@);
            found.push(line);
            assert(views(found@) =~= before.push(line@));
            assert(views(found@) =~= self@.new_worktree_lines().take(k + 1));
            k = k + 1;
        }
        assert(self@.new_worktree_lines().take(k as int) =~= self@.new_worktree_lines());
        found
    }

    fn describe_make_bare(&self, nothing_before: bool) -> (text: String)
        requires
            nothing_before == (self@.move_lines().len() == 0 && self@.new_worktrees.len() == 0),
        ensures
            text@ == self@.describe_make_bare(),
    {
        let mut text = String::new();
        if let Some(main) = &self.make_bare {
            let git_dir = join(main.inner.worktree.path.as_str(), ".git");
            let git_destination = join(self.destination.as_str(), ".git");
            text.append("\n");
            if !nothing_before {
                text.append("Additionally, ");
            }
            proof {
                reveal_strlit("");
                assert(text@ =~= "\n"@ + if nothing_before {
                    ""@
                } else {
                    "Additionally, "@
                });
            }
            if !is_same_path(git_dir.as_str(), git_destination.as_str()) {
                text.append(
                    "I'll move the Git directory and convert the repository to a bare repository:\n",
                );
                let mut line = git_dir;
                line.append(" -> ");
                line.append(git_destination.as_str());
                let mut list: Vec<String> = Vec::new();
                list.push(line);
                assert(views(list@) =~= seq![line@]);
                text.append(format_bulleted_list_multiline(&list).as_str());
            } else {
                text.append("I'll convert the repository to a bare repository.");
            }
        }
        assert(text@ =~= self@.describe_make_bare());
        text
    }

    /// The plan as it is shown to the user; see [`ConvertPlanModel::describe`].
    pub fn to_string(&self) -> (text: String)
        ensures
            text@ == self@.describe(),
    {
        if self.is_no_op() {
            return self.repo.clone().concat(" is already a worktree repository");
        }
        let moves = self.move_lines();
        let created = self.new_worktree_lines();
        let mut text = String::from_str("Converting ");
        text.append(self.repo.as_str());
        text.append(" to a worktree repository");
        if !is_same_path(self.repo.as_str(), self.destination.as_str()) {
            text.append(" at ");
            text.append(self.destination.as_str());
        }
        text.append(".");
        let ghost head = text@;
        proof {
            reveal_strlit("");
            assert(head =~= "Converting "@ + self@.repo + " to a worktree repository"@ + (if same_path(
                self@.repo,
                self@.destination,
            ) {
                ""@
            } else {
                " at "@ + self@.destination
            }) + "."@);
        }
        if moves.len() > 0 {
            text.append("\nI'll move the following worktrees to new locations:\n");
            text.append(format_bulleted_list_multiline(&moves).as_str());
        }
        proof {
            assert(text@ =~= head + self@.describe_moves());
        }
        if created.len() > 0 {
            let mut part = String::from_str("\nI'll");
            if moves.len() > 0 {
                part.append(" also");
            }
            part.append(" create new worktrees for the following branches:\n");
            part.append(format_bulleted_list_multiline(&created).as_str());
            assert(part@ =~= self@.describe_new_worktrees());
            text.append(part.as_str());
        }
        proof {
            assert(text@ =~= head + self@.describe_moves() + self@.describe_new_worktrees());
        }
        text.append(self.describe_make_bare(moves.len() == 0 && created.len() == 0).as_str());
        text
    }
}

} // verus!
