//! Planning a new worktree: which branch it gets and where that branch starts.

use vstd::prelude::*;
use vstd::string::*;
use crate::cli::AddArgs;
use crate::cli::AddArgsModel;
use crate::config::command_views;
use crate::config::replacement_views;
use crate::config::BranchReplacement;
use crate::config::ReplacementModel;
use crate::config::ShellCommandModel;
use crate::git::AppGit;
use crate::git::CommandModel;
use crate::git::GitCommand;
use crate::git::refs::branch::BranchModel;
use crate::git::refs::branch::BranchRef;
use crate::git::refs::local_branch::LocalBranchRef;
use crate::git::status::entry_views;
use crate::git::status::Status;
use crate::git::status::StatusEntry;
use crate::git::status::StatusEntryModel;
use crate::git::worktree::AddOptsModel;
use crate::git::worktree::AddWorktreeOpts;
use crate::git::worktree::dirname_for;
use crate::git::worktree::GitWorktree;
use crate::git::worktree::spec_dirname_for;
use crate::path::join;
use crate::path::path_join;
use crate::text::decimal;
use crate::text::find_from;
use crate::text::lemma_find_from_bounds;
use crate::text::lemma_rfind_bounds;
use crate::text::spec_decimal;
use crate::text::spec_rfind;
use crate::text::to_chars;
use crate::text::views;

verus! {

/// The mathematical value of a [`StartPoint`].
pub enum StartModel {
    Branch(BranchModel),
    Commitish(Seq<char>),
}

impl StartModel {
    /// What is handed to git to name the start point.
    pub open spec fn commitish(self) -> Seq<char> {
        match self {
            StartModel::Branch(branch) => branch.qualified_branch_name(),
            StartModel::Commitish(commitish) => commitish,
        }
    }
}

/// Where to start a worktree at.
#[derive(Debug, PartialEq, Eq)]
pub enum StartPoint {
    /// An existing local or remote branch. The new branch should track this branch.
    Branch(BranchRef),
    /// A commit.
    Commitish(String),
}

impl View for StartPoint {
    type V = StartModel;

    open spec fn view(&self) -> StartModel {
        match self {
            StartPoint::Branch(branch) => StartModel::Branch(branch@),
            StartPoint::Commitish(commitish) => StartModel::Commitish(commitish@),
        }
    }
}

impl Clone for StartPoint {
    fn clone(&self) -> (copy: Self)
        ensures
            copy@ == self@,
    {
        match self {
            StartPoint::Branch(branch) => StartPoint::Branch(branch.clone()),
            StartPoint::Commitish(commitish) => StartPoint::Commitish(commitish.clone()),
        }
    }
}

/// Why no worktree can be planned.
#[derive(Debug, Clone, Copy, PartialEq, Eq, Structural)]
pub enum AddError {
    /// `--branch` and `--force-branch` were both given.
    ConflictingBranchFlags,
    /// Neither a branch, nor `--detach`, nor a name or path was given.
    MissingNameOrPath,
    /// A start point is needed and the repository has no default branch.
    NoDefaultBranch,
}

impl AddError {
    /// The message of the error.
    pub open spec fn spec_to_string(self) -> Seq<char> {
        match self {
            AddError::ConflictingBranchFlags => "`--branch` and `--force-branch` are mutually exclusive"@,
            AddError::MissingNameOrPath => "If `--branch` is not given, `NAME_OR_PATH` must be given"@,
            AddError::NoDefaultBranch => "No default branch found; pass a COMMITISH to start the new worktree at"@,
        }
    }

    /// The message of the error.
    pub fn to_string(&self) -> (text: String)
        ensures
            text@ == self.spec_to_string(),
    {
        match self {
            AddError::ConflictingBranchFlags => String::from_str(
                "`--branch` and `--force-branch` are mutually exclusive",
            ),
            AddError::MissingNameOrPath => String::from_str(
                "If `--branch` is not given, `NAME_OR_PATH` must be given",
            ),
            AddError::NoDefaultBranch => String::from_str(
                "No default branch found; pass a COMMITISH to start the new worktree at",
            ),
        }
    }
}

impl StartPoint {
    /// The start point for `commitish`: the branch that it names, if it names one, or
    /// else itself as a commit; without a commitish, the preferred default branch.
    pub open spec fn spec_new(
        commitish: Option<Seq<char>>,
        named: Option<BranchModel>,
        preferred: Option<BranchModel>,
    ) -> Result<StartModel, AddError> {
        match commitish {
            Some(text) => match named {
                Some(branch) => Ok(StartModel::Branch(branch)),
                None => Ok(StartModel::Commitish(text)),
            },
            None => match preferred {
                Some(branch) => Ok(StartModel::Branch(branch)),
                None => Err(AddError::NoDefaultBranch),
            },
        }
    }

    /// The start point for `commitish`. `named` is the local or unique remote branch
    /// that `commitish` names, if it names one; `preferred` is the repository's
    /// preferred default branch, if it has one.
    pub fn new(commitish: Option<&str>, named: Option<BranchRef>, preferred: Option<BranchRef>) -> (start:
        Result<Self, AddError>)
        ensures
            match start {
                Ok(point) => Self::spec_new(
                    option_str_view(commitish),
                    option_branch_view(named),
                    option_branch_view(preferred),
                ) == Ok::<_, AddError>(point@),
                Err(error) => Self::spec_new(
                    option_str_view(commitish),
                    option_branch_view(named),
                    option_branch_view(preferred),
                ) == Err::<StartModel, _>(error),
            },
    {
        match commitish {
            Some(text) => match named {
                Some(branch) => Ok(StartPoint::Branch(branch)),
                None => Ok(StartPoint::Commitish(text.to_owned())),
            },
            None => Self::preferred(preferred),
        }
    }

    /// The preferred default branch as a start point.
    pub fn preferred(preferred: Option<BranchRef>) -> (start: Result<Self, AddError>)
        ensures
            match start {
                Ok(point) => option_branch_view(preferred) == Some(point@->Branch_0) && point@ is Branch,
                Err(error) => preferred is None && error == AddError::NoDefaultBranch,
            },
    {
        match preferred {
            Some(branch) => Ok(StartPoint::Branch(branch)),
            None => Err(AddError::NoDefaultBranch),
        }
    }

    /// What is handed to git to name the start point.
    pub fn commitish(&self) -> (text: &str)
        ensures
            text@ == self@.commitish(),
    {
        match self {
            StartPoint::Branch(start) => start.qualified_branch_name(),
            StartPoint::Commitish(commitish) => commitish.as_str(),
        }
    }

    /// The start point as it is shown.
    pub fn to_string(&self) -> (text: String)
        ensures
            text@ == self@.commitish(),
    {
        self.commitish().to_owned()
    }
}

/// The view of an optional string slice.
pub open spec fn option_str_view(text: Option<&str>) -> Option<Seq<char>> {
    match text {
        Some(text) => Some(text@),
        None => None,
    }
}

/// The view of an optional branch.
pub open spec fn option_branch_view(branch: Option<BranchRef>) -> Option<BranchModel> {
    match branch {
        Some(branch) => Some(branch@),
        None => None,
    }
}

/// The mathematical value of a [`BranchStartPointPlan`].
pub enum PlanModel {
    New { force: bool, branch: Seq<char>, start: StartModel },
    Existing(Seq<char>),
    Detach(StartModel),
}

impl PlanModel {
    /// The plan for a branch that a name or commitish resolved to: a local branch is
    /// checked out; a remote branch gets a new local branch of its name that tracks it.
    pub open spec fn from_branch(branch: BranchModel) -> PlanModel {
        match branch {
            BranchModel::Local(name) => PlanModel::Existing(name),
            BranchModel::Remote(qualified) => PlanModel::New {
                force: false,
                branch: branch.branch_name(),
                start: StartModel::Branch(branch),
            },
        }
    }

    /// The plan as it is shown.
    pub open spec fn describe(self) -> Seq<char> {
        match self {
            PlanModel::Existing(branch) => "for "@ + branch,
            PlanModel::New { force, branch, start } => "for "@ + branch + (if start is Branch {
                " tracking "@
            } else {
                " starting at "@
            }) + start.commitish(),
            PlanModel::Detach(start) => "detached starting at "@ + start.commitish(),
        }
    }

    /// The name of the branch that the worktree is for, if it is for one.
    pub open spec fn branch(self) -> Option<Seq<char>> {
        match self {
            PlanModel::New { branch, .. } => Some(branch),
            PlanModel::Existing(branch) => Some(branch),
            PlanModel::Detach(_) => None,
        }
    }

    /// What names the worktree where no name or path is given: the branch, or for a
    /// detached worktree the start point.
    pub open spec fn default_name(self) -> Seq<char> {
        match self {
            PlanModel::New { branch, .. } => branch,
            PlanModel::Existing(branch) => branch,
            PlanModel::Detach(start) => start.commitish(),
        }
    }
}

/// When creating a new `git worktree`, we can check out an existing branch or commit,
/// or create a new branch. The cases are intertwined: a new local branch may track a
/// remote branch.
///
/// A new branch either takes the default branch as its starting point, or tracks an
/// existing branch, or starts at a given commit.
#[derive(Debug, PartialEq, Eq)]
pub enum BranchStartPointPlan {
    /// Create a new branch.
    New {
        /// Whether to forcibly reset the branch if it already exists.
        force: bool,
        /// The branch to create or reset.
        branch: LocalBranchRef,
        /// The start-point for the new branch.
        start: StartPoint,
    },
    /// Check out an existing branch.
    Existing(LocalBranchRef),
    /// Create a new detached worktree.
    Detach(StartPoint),
}

impl View for BranchStartPointPlan {
    type V = PlanModel;

    open spec fn view(&self) -> PlanModel {
        match self {
            BranchStartPointPlan::New { force, branch, start } => PlanModel::New {
                force: *force,
                branch: branch@,
                start: start@,
            },
            BranchStartPointPlan::Existing(branch) => PlanModel::Existing(branch@),
            BranchStartPointPlan::Detach(start) => PlanModel::Detach(start@),
        }
    }
}

impl Clone for BranchStartPointPlan {
    fn clone(&self) -> (copy: Self)
        ensures
            copy@ == self@,
    {
        match self {
            BranchStartPointPlan::New { force, branch, start } => BranchStartPointPlan::New {
                force: *force,
                branch: branch.clone(),
                start: start.clone(),
            },
            BranchStartPointPlan::Existing(branch) => BranchStartPointPlan::Existing(branch.clone()),
            BranchStartPointPlan::Detach(start) => BranchStartPointPlan::Detach(start.clone()),
        }
    }
}

/// A question to the repository that a plan waits for.
#[derive(Debug, PartialEq, Eq)]
pub enum BranchQuery {
    /// Is this the name of a local branch or, failing that, of a unique remote branch?
    LocalOrRemote(String),
    /// Which branch is the preferred default branch?
    Preferred,
}

/// The mathematical value of a [`BranchQuery`].
pub enum QueryModel {
    LocalOrRemote(Seq<char>),
    Preferred,
}

impl View for BranchQuery {
    type V = QueryModel;

    open spec fn view(&self) -> QueryModel {
        match self {
            BranchQuery::LocalOrRemote(name) => QueryModel::LocalOrRemote(name@),
            BranchQuery::Preferred => QueryModel::Preferred,
        }
    }
}

/// What the repository has answered so far. The outer `None` stands for a question
/// that was not asked; the inner one for "there is no such branch".
#[derive(Debug, PartialEq, Eq)]
pub struct BranchAnswers {
    /// The answer to [`BranchQuery::LocalOrRemote`].
    pub local_or_remote: Option<Option<BranchRef>>,
    /// The answer to [`BranchQuery::Preferred`].
    pub preferred: Option<Option<BranchRef>>,
}

/// The mathematical value of [`BranchAnswers`].
pub struct AnswersModel {
    pub local_or_remote: Option<Option<BranchModel>>,
    pub preferred: Option<Option<BranchModel>>,
}

/// The view of an answer.
pub open spec fn answer_view(answer: Option<Option<BranchRef>>) -> Option<Option<BranchModel>> {
    match answer {
        Some(branch) => Some(option_branch_view(branch)),
        None => None,
    }
}

impl View for BranchAnswers {
    type V = AnswersModel;

    open spec fn view(&self) -> AnswersModel {
        AnswersModel {
            local_or_remote: answer_view(self.local_or_remote),
            preferred: answer_view(self.preferred),
        }
    }
}

impl BranchAnswers {
    /// No question asked yet.
    pub fn new() -> (answers: Self)
        ensures
            answers@ == (AnswersModel { local_or_remote: None, preferred: None }),
    {
        BranchAnswers { local_or_remote: None, preferred: None }
    }
}

/// What a plan needs next: nothing, as it is complete, or an answer.
#[derive(Debug, PartialEq, Eq)]
pub enum PlanStep {
    Plan(BranchStartPointPlan),
    Ask(BranchQuery),
}

/// The mathematical value of a [`PlanStep`].
pub enum StepModel {
    Plan(PlanModel),
    Ask(QueryModel),
}

impl View for PlanStep {
    type V = StepModel;

    open spec fn view(&self) -> StepModel {
        match self {
            PlanStep::Plan(plan) => StepModel::Plan(plan@),
            PlanStep::Ask(query) => StepModel::Ask(query@),
        }
    }
}

impl AddArgsModel {
    /// Whether a branch is created by name or the worktree is detached, so that the
    /// name or path says nothing about the branch.
    pub open spec fn names_no_branch(self) -> bool {
        self.branch is Some || self.force_branch is Some || self.detach
    }

    /// The arguments that no plan can be made of, with the reason.
    pub open spec fn invalid(self) -> Option<AddError> {
        if self.branch is Some && self.force_branch is Some {
            Some(AddError::ConflictingBranchFlags)
        } else if !self.names_no_branch() && self.name_or_path is None {
            Some(AddError::MissingNameOrPath)
        } else {
            None
        }
    }

    /// The branch that the name or path stands for: its final component, after the
    /// configured rules `rules`, if there are any.
    pub open spec fn branch_candidate(self, rules: Seq<ReplacementModel>) -> Seq<char> {
        spec_dirname_for(rules, self.name_or_path->0)
    }

    /// The name that may be the name of a branch: the commitish or, where the name or
    /// path stands for the branch and no commitish is given, the branch candidate.
    pub open spec fn lookup(self, rules: Seq<ReplacementModel>) -> Option<Seq<char>> {
        if self.commitish is Some {
            self.commitish
        } else if self.names_no_branch() || self.name_or_path is None {
            None
        } else {
            Some(self.branch_candidate(rules))
        }
    }

    /// Whether the plan starts at the preferred default branch: no commitish is given
    /// and the name or path does not lead to a branch. `named` is what [`Self::lookup`]
    /// resolved to.
    pub open spec fn needs_preferred(self, named: Option<BranchModel>) -> bool {
        self.commitish is None && (self.names_no_branch() || named is None)
    }

    /// The plan for valid arguments.
    ///
    /// ```plain
    /// --branch | NAME_OR_PATH  | START_POINT   | behavior              | start
    /// -------- | ------------  | -----------   | ------------------    | -------------
    /// BRANCH   | [ignored]     |               | new BRANCH            | DEFAULT
    /// BRANCH   | [ignored]     | LOCAL_BRANCH  | new BRANCH            | LOCAL_BRANCH
    /// BRANCH   | [ignored]     | REMOTE_BRANCH | new BRANCH            | REMOTE_BRANCH
    /// BRANCH   | [ignored]     | COMMITISH     | new BRANCH            | COMMITISH
    /// -------- | ------------  | -----------   | ------------------    | -------------
    ///          | NAME          | LOCAL_BRANCH  | existing LOCAL_BRANCH |
    ///          | NAME          | REMOTE_BRANCH | new REMOTE_BRANCH     | REMOTE_BRANCH
    ///          | NAME          | COMMITISH     | new NAME              | COMMITISH
    /// -------- | ------------  | -----------   | ------------------    | -------------
    ///          | LOCAL_BRANCH  |               | existing LOCAL_BRANCH |
    ///          | REMOTE_BRANCH |               | new REMOTE_BRANCH     | REMOTE_BRANCH
    ///          | BRANCH        |               | new BRANCH            | DEFAULT
    /// ```
    ///
    /// `named` is the branch that [`Self::lookup`] names, if it names one, and
    /// `preferred` the preferred default branch, if there is one.
    pub open spec fn plan(
        self,
        rules: Seq<ReplacementModel>,
        named: Option<BranchModel>,
        preferred: Option<BranchModel>,
    ) -> Result<PlanModel, AddError> {
        let start = StartPoint::spec_new(self.commitish, named, preferred);
        if self.branch is Some {
            match start {
                Ok(start) => Ok(PlanModel::New { force: false, branch: self.branch->0, start }),
                Err(error) => Err(error),
            }
        } else if self.force_branch is Some {
            match start {
                Ok(start) => Ok(PlanModel::New { force: true, branch: self.force_branch->0, start }),
                Err(error) => Err(error),
            }
        } else if self.detach {
            match start {
                Ok(start) => Ok(PlanModel::Detach(start)),
                Err(error) => Err(error),
            }
        } else {
            match named {
                Some(branch) => Ok(PlanModel::from_branch(branch)),
                None => match start {
                    Ok(start) => Ok(
                        PlanModel::New {
                            force: false,
                            branch: self.branch_candidate(rules),
                            start,
                        },
                    ),
                    Err(error) => Err(error),
                },
            }
        }
    }

    /// The next step towards a plan: an error for invalid arguments; else the first
    /// question that is needed and not answered, the branch lookup before the
    /// preferred branch; else the plan.
    pub open spec fn step(self, rules: Seq<ReplacementModel>, answers: AnswersModel) -> Result<
        StepModel,
        AddError,
    > {
        if self.invalid() is Some {
            Err(self.invalid()->0)
        } else if self.lookup(rules) is Some && answers.local_or_remote is None {
            Ok(StepModel::Ask(QueryModel::LocalOrRemote(self.lookup(rules)->0)))
        } else {
            let named = if self.lookup(rules) is Some {
                answers.local_or_remote->0
            } else {
                None
            };
            if self.needs_preferred(named) && answers.preferred is None {
                Ok(StepModel::Ask(QueryModel::Preferred))
            } else {
                let preferred = if answers.preferred is Some {
                    answers.preferred->0
                } else {
                    None
                };
                match self.plan(rules, named, preferred) {
                    Ok(plan) => Ok(StepModel::Plan(plan)),
                    Err(error) => Err(error),
                }
            }
        }
    }
}

/// A plan does not depend on an answer that was not asked for.
pub proof fn lemma_plan_ignores_unneeded_answers(
    args: AddArgsModel,
    rules: Seq<ReplacementModel>,
    named: Option<BranchModel>,
    preferred: Option<BranchModel>,
    other: Option<BranchModel>,
)
    requires
        args.invalid() is None,
    ensures
        !args.needs_preferred(named) ==> args.plan(rules, named, preferred) == args.plan(
            rules,
            named,
            other,
        ),
        !args.needs_preferred(named) ==> args.plan(rules, named, preferred) is Ok,
        args.needs_preferred(named) ==> (args.plan(rules, named, preferred) is Err <==> preferred
            is None),
{
}

/// With both questions answered, the next step is the plan or an error, never
/// another question.
pub proof fn lemma_answers_suffice(
    args: AddArgsModel,
    rules: Seq<ReplacementModel>,
    answers: AnswersModel,
)
    requires
        answers.local_or_remote is Some,
        answers.preferred is Some,
    ensures
        args.step(rules, answers) matches Ok(step) ==> step is Plan,
{
}

/// A name that is the name of a branch already: with no flag and no commitish, a
/// local branch of that name is checked out as it is, and a remote branch gets a new
/// local branch of its name that tracks it. The preferred branch plays no part.
pub proof fn lemma_named_branch_is_reused(
    args: AddArgsModel,
    rules: Seq<ReplacementModel>,
    found: BranchModel,
    preferred: Option<Option<BranchModel>>,
)
    requires
        !args.names_no_branch(),
        args.name_or_path is Some,
        args.commitish is None,
    ensures
        args.step(rules, AnswersModel { local_or_remote: Some(Some(found)), preferred }) == Ok::<
            _,
            AddError,
        >(StepModel::Plan(PlanModel::from_branch(found))),
        found matches BranchModel::Local(name) ==> PlanModel::from_branch(found)
            == PlanModel::Existing(name),
        found is Remote ==> PlanModel::from_branch(found) == (PlanModel::New {
            force: false,
            branch: found.branch_name(),
            start: StartModel::Branch(found),
        }),
{
}

/// A name that is the name of no branch, local or remote: with no flag and no
/// commitish, a new branch is created that tracks the preferred default branch. The
/// new branch is named by the final component of the name after the rules; that is
/// the name itself where no rule is configured and the name holds no slash.
pub proof fn lemma_new_branch_tracks_default(
    args: AddArgsModel,
    rules: Seq<ReplacementModel>,
    default_branch: BranchModel,
)
    requires
        !args.names_no_branch(),
        args.name_or_path is Some,
        args.commitish is None,
    ensures
        args.step(
            rules,
            AnswersModel { local_or_remote: Some(None), preferred: Some(Some(default_branch)) },
        ) == Ok::<_, AddError>(
            StepModel::Plan(
                PlanModel::New {
                    force: false,
                    branch: spec_dirname_for(rules, args.name_or_path->0),
                    start: StartModel::Branch(default_branch),
                },
            ),
        ),
        rules.len() == 0 && !args.name_or_path->0.contains('/') ==> spec_dirname_for(
            rules,
            args.name_or_path->0,
        ) == args.name_or_path->0,
{
    let name = args.name_or_path->0;
    if rules.len() == 0 && !name.contains('/') {
        lemma_rfind_bounds(name, name.len() as int, '/');
        let slash = spec_rfind(name, name.len() as int, '/');
        if slash >= 0 {
            assert(name.contains(name[slash]));
        }
    }
}

impl BranchStartPointPlan {
    /// Create a branch and start-point plan from the given arguments, as far as the
    /// answers of the repository allow; see [`AddArgsModel::step`] and
    /// [`AddArgsModel::plan`].
    ///
    /// In general, for a fragment `NAME`:
    /// - If `NAME` is the name of a local branch, that branch is checked out.
    /// - If `NAME` is the name of a remote branch, a new local branch with the same
    ///   name is created to track the remote branch.
    /// - Otherwise, a new branch is created named `NAME` at the default starting
    ///   point. If an explicit start point is given, that is used instead.
    ///
    /// `rules` are the configured rules that make a directory name of a branch name;
    /// they also make the branch name of a name or path.
    pub fn new(args: &AddArgs, rules: &Vec<BranchReplacement>, answers: &BranchAnswers) -> (step:
        Result<PlanStep, AddError>)
        ensures
            match step {
                Ok(next) => args@.step(replacement_views(rules@), answers@) == Ok::<_, AddError>(
                    next@,
                ),
                Err(error) => args@.step(replacement_views(rules@), answers@) == Err::<
                    StepModel,
                    _,
                >(error),
            },
    {
        let names_no_branch = args.inner.branch.is_some() || args.inner.force_branch.is_some()
            || args.inner.detach;
        if args.inner.branch.is_some() && args.inner.force_branch.is_some() {
            return Err(AddError::ConflictingBranchFlags);
        }
        if !names_no_branch && args.inner.name_or_path.is_none() {
            return Err(AddError::MissingNameOrPath);
        }
        let lookup: Option<String> = match &args.commitish {
            Some(commitish) => Some(commitish.clone()),
            None => match &args.inner.name_or_path {
                Some(name_or_path) => if names_no_branch {
                    None
                } else {
                    Some(dirname_for(rules, name_or_path.as_str()))
                },
                None => None,
            },
        };
        let named: Option<BranchRef> = match lookup {
            Some(name) => match &answers.local_or_remote {
                None => {
                    return Ok(PlanStep::Ask(BranchQuery::LocalOrRemote(name)));
                },
                Some(None) => None,
                Some(Some(branch)) => Some(branch.clone()),
            },
            None => None,
        };
        let needs_preferred = args.commitish.is_none() && (names_no_branch || named.is_none());
        let preferred: Option<BranchRef> = match &answers.preferred {
            None => {
                if needs_preferred {
                    return Ok(PlanStep::Ask(BranchQuery::Preferred));
                }
                None
            },
            Some(None) => None,
            Some(Some(branch)) => Some(branch.clone()),
        };
        let commitish: Option<&str> = match &args.commitish {
            Some(commitish) => Some(commitish.as_str()),
            None => None,
        };
        if let Some(branch) = &args.inner.branch {
            let plan = Self::new_branch_at(false, branch.as_str(), commitish, named, preferred)?;
            Ok(PlanStep::Plan(plan))
        } else if let Some(force_branch) = &args.inner.force_branch {
            let plan = Self::new_branch_at(
                true,
                force_branch.as_str(),
                commitish,
                named,
                preferred,
            )?;
            Ok(PlanStep::Plan(plan))
        } else if args.inner.detach {
            Ok(PlanStep::Plan(Self::new_detached(commitish, named, preferred)?))
        } else {
            match named {
                Some(branch) => Ok(PlanStep::Plan(Self::from_branch(branch))),
                None => {
                    let candidate = match &args.inner.name_or_path {
                        Some(name_or_path) => dirname_for(rules, name_or_path.as_str()),
                        None => String::new(),
                    };
                    let plan = Self::new_branch_at(
                        false,
                        candidate.as_str(),
                        commitish,
                        None,
                        preferred,
                    )?;
                    Ok(PlanStep::Plan(plan))
                },
            }
        }
    }

    /// The plan of a new branch `branch` at the start point for `commitish`.
    pub fn new_branch_at(
        force: bool,
        branch: &str,
        commitish: Option<&str>,
        named: Option<BranchRef>,
        preferred: Option<BranchRef>,
    ) -> (plan: Result<Self, AddError>)
        ensures
            match StartPoint::spec_new(
                option_str_view(commitish),
                option_branch_view(named),
                option_branch_view(preferred),
            ) {
                Ok(start) => plan matches Ok(made) && made@ == (PlanModel::New {
                    force,
                    branch: branch@,
                    start,
                }),
                Err(error) => plan == Err::<Self, _>(error),
            },
    {
        match StartPoint::new(commitish, named, preferred) {
            Ok(start) => Ok(
                BranchStartPointPlan::New { force, branch: LocalBranchRef::new(branch.to_owned()), start },
            ),
            Err(error) => Err(error),
        }
    }

    /// The plan of a detached worktree at the start point for `commitish`.
    pub fn new_detached(commitish: Option<&str>, named: Option<BranchRef>, preferred: Option<BranchRef>) -> (plan:
        Result<Self, AddError>)
        ensures
            match StartPoint::spec_new(
                option_str_view(commitish),
                option_branch_view(named),
                option_branch_view(preferred),
            ) {
                Ok(start) => plan matches Ok(made) && made@ == PlanModel::Detach(start),
                Err(error) => plan == Err::<Self, _>(error),
            },
    {
        match StartPoint::new(commitish, named, preferred) {
            Ok(start) => Ok(BranchStartPointPlan::Detach(start)),
            Err(error) => Err(error),
        }
    }

    /// The plan for a branch that a name resolved to, if it resolved to one.
    pub fn from_commitish(named: Option<BranchRef>) -> (plan: Option<Self>)
        ensures
            match plan {
                Some(made) => named matches Some(branch) && made@ == PlanModel::from_branch(branch@),
                None => named is None,
            },
    {
        match named {
            Some(branch) => Some(Self::from_branch(branch)),
            None => None,
        }
    }

    /// The plan for an existing branch: a local branch is checked out; a remote
    /// branch gets a new local branch of its name that tracks it.
    pub fn from_branch(branch: BranchRef) -> (plan: Self)
        ensures
            plan@ == PlanModel::from_branch(branch@),
    {
        match branch {
            BranchRef::Local(local_branch) => BranchStartPointPlan::Existing(local_branch),
            BranchRef::Remote(remote_branch) => BranchStartPointPlan::New {
                force: false,
                branch: remote_branch.as_local(),
                start: StartPoint::Branch(BranchRef::Remote(remote_branch)),
            },
        }
    }

    /// The plan as it is shown: `for <branch>`, with `tracking <branch>` or `starting
    /// at <commit>` for a new branch, or `detached starting at <commit>`.
    pub fn to_string(&self) -> (text: String)
        ensures
            text@ == self@.describe(),
    {
        match self {
            BranchStartPointPlan::Existing(branch) => String::from_str("for ").concat(
                branch.branch_name(),
            ),
            BranchStartPointPlan::New { force: _, branch, start } => {
                let mut text = String::from_str("for ");
                text.append(branch.branch_name());
                match start {
                    StartPoint::Branch(_) => text.append(" tracking "),
                    StartPoint::Commitish(_) => text.append(" starting at "),
                }
                text.append(start.commitish());
                text
            },
            BranchStartPointPlan::Detach(start) => String::from_str("detached starting at ").concat(
                start.commitish(),
            ),
        }
    }
}

/// Where a new worktree goes, as far as the arguments say.
#[derive(Debug, PartialEq, Eq)]
pub enum Destination {
    /// At this path, which is to be made absolute.
    Path(String),
    /// In the directory that holds the worktrees, under this name.
    InContainer(String),
}

/// The mathematical value of a [`Destination`].
pub enum DestinationModel {
    Path(Seq<char>),
    InContainer(Seq<char>),
}

impl View for Destination {
    type V = DestinationModel;

    open spec fn view(&self) -> DestinationModel {
        match self {
            Destination::Path(path) => DestinationModel::Path(path@),
            Destination::InContainer(name) => DestinationModel::InContainer(name@),
        }
    }
}

/// Where a new worktree goes: a name or path with a slash in it is a path; one
/// without is a name, and where none is given the plan's branch or start point is.
/// A name gives the name of the worktree's directory by the configured rules.
pub open spec fn spec_destination_plan(args: AddArgsModel, plan: PlanModel, rules: Seq<ReplacementModel>) -> DestinationModel {
    match args.name_or_path {
        Some(name_or_path) => if name_or_path.contains('/') {
            DestinationModel::Path(name_or_path)
        } else {
            DestinationModel::InContainer(spec_dirname_for(rules, name_or_path))
        },
        None => DestinationModel::InContainer(spec_dirname_for(rules, plan.default_name())),
    }
}

/// One step of adding a worktree, for whoever carries it out.
#[derive(Debug, PartialEq, Eq)]
pub enum AddStep {
    /// Run the `git` command. A failure ends the work.
    Git(GitCommand),
    /// Copy the file or directory `from` to `to`.
    CopyDir { from: String, to: String },
    /// Run the program `argv[0]` with the arguments after it in the directory
    /// `current_dir`. A failure is reported, and the work goes on.
    Run { argv: Vec<String>, current_dir: String },
}

/// The mathematical value of an [`AddStep`].
pub enum AddStepModel {
    Git(CommandModel),
    CopyDir { from: Seq<char>, to: Seq<char> },
    Run { argv: Seq<Seq<char>>, current_dir: Seq<char> },
}

impl View for AddStep {
    type V = AddStepModel;

    open spec fn view(&self) -> AddStepModel {
        match self {
            AddStep::Git(command) => AddStepModel::Git(command@),
            AddStep::CopyDir { from, to } => AddStepModel::CopyDir { from: from@, to: to@ },
            AddStep::Run { argv, current_dir } => AddStepModel::Run {
                argv: views(argv@),
                current_dir: current_dir@,
            },
        }
    }
}

/// The views of the steps of `steps`.
pub open spec fn add_step_views(steps: Seq<AddStep>) -> Seq<AddStepModel> {
    steps.map_values(|step: AddStep| step@)
}

/// The mathematical value of a [`WorktreePlan`].
pub struct WorktreePlanModel {
    pub git: CommandModel,
    pub destination: Seq<char>,
    pub branch: PlanModel,
    pub copy_ignored: Seq<StatusEntryModel>,
    pub commands: Seq<ShellCommandModel>,
}

impl WorktreePlanModel {
    /// The options of `git worktree add` for the plan. A new branch tracks its start
    /// point where that is a branch.
    pub open spec fn options(self) -> AddOptsModel {
        match self.branch {
            PlanModel::New { force, branch, start } => AddOptsModel {
                force_branch: force,
                create_branch: Some(branch),
                track: start is Branch,
                start_point: Some(start.commitish()),
                ..AddOptsModel::default()
            },
            PlanModel::Existing(branch) => AddOptsModel {
                start_point: Some(branch),
                ..AddOptsModel::default()
            },
            PlanModel::Detach(start) => AddOptsModel {
                start_point: Some(start.commitish()),
                detach: true,
                ..AddOptsModel::default()
            },
        }
    }

    /// The `git worktree add` command of the plan.
    pub open spec fn command(self) -> CommandModel {
        self.git.with_args(self.options().args(self.destination))
    }

    /// The plan as it is shown.
    pub open spec fn describe(self) -> Seq<char> {
        "Creating worktree in "@ + self.destination + " "@ + self.branch.describe() + if self.copy_ignored.len()
            > 0 {
            "\nCopying "@ + spec_decimal(self.copy_ignored.len()) + " ignored paths to new worktree"@
        } else {
            Seq::empty()
        }
    }

    /// The steps that copy the ignored paths into the new worktree.
    pub open spec fn copy_steps(self) -> Seq<AddStepModel> {
        Seq::new(
            self.copy_ignored.len(),
            |k: int|
                AddStepModel::CopyDir {
                    from: path_join(self.git.current_dir, self.copy_ignored[k].path),
                    to: path_join(self.destination, self.copy_ignored[k].path),
                },
        )
    }

    /// The steps that run the configured commands in the new worktree.
    pub open spec fn run_steps(self) -> Seq<AddStepModel> {
        Seq::new(
            self.commands.len(),
            |k: int| AddStepModel::Run { argv: self.commands[k].argv(), current_dir: self.destination },
        )
    }

    /// The steps of the plan: add the worktree, copy the ignored paths into it, and
    /// run the configured commands in it.
    pub open spec fn steps(self) -> Seq<AddStepModel> {
        seq![AddStepModel::Git(self.command())] + self.copy_steps() + self.run_steps()
    }
}

/// Why a worktree is not added.
#[derive(Debug, PartialEq, Eq)]
pub struct DestinationExists {
    pub destination: String,
}

impl DestinationExists {
    /// The message of the error.
    pub fn to_string(&self) -> (text: String)
        ensures
            text@ == "Worktree destination "@ + self.destination@ + " already exists"@,
    {
        let mut text = String::from_str("Worktree destination ");
        text.append(self.destination.as_str());
        text.append(" already exists");
        text
    }
}

/// A plan for creating a new `git worktree`.
#[derive(Debug)]
pub struct WorktreePlan<'a> {
    git: AppGit<'a>,
    destination: String,
    branch: BranchStartPointPlan,
    copy_ignored: Vec<StatusEntry>,
}

impl<'a> View for WorktreePlan<'a> {
    type V = WorktreePlanModel;

    closed spec fn view(&self) -> WorktreePlanModel {
        WorktreePlanModel {
            git: self.git.git@,
            destination: self.destination@,
            branch: self.branch@,
            copy_ignored: entry_views(self.copy_ignored@),
            commands: command_views(self.git.config.add.commands@),
        }
    }
}

impl<'a> WorktreePlan<'a> {
    /// The plan of a worktree at `destination` for the branch plan `branch`, made in
    /// the worktree that `git` runs in. `copy_ignored` are the ignored paths to copy.
    pub fn new(git: AppGit<'a>, destination: String, branch: BranchStartPointPlan, copy_ignored: Vec<StatusEntry>) -> (plan:
        Self)
        ensures
            plan@ == (WorktreePlanModel {
                git: git.git@,
                destination: destination@,
                branch: branch@,
                copy_ignored: entry_views(copy_ignored@),
                commands: command_views(git.config.add.commands@),
            }),
    {
        WorktreePlan { git, destination, branch, copy_ignored }
    }

    /// The ignored paths to copy into the new worktree: those of `status`.
    ///
    /// The status is worth asking for only where the configuration says to copy
    /// ignored paths and the plan is made inside a working tree.
    pub fn copy_ignored_plan(status: &Status) -> (ignored: Vec<StatusEntry>)
        ensures
            entry_views(ignored@) == status@.filter(|entry: StatusEntryModel| entry.is_ignored()),
    {
        status.ignored()
    }

    /// Where the new worktree goes; see [`spec_destination_plan`].
    pub fn destination_plan(git: &AppGit<'_>, args: &AddArgs, branch: &BranchStartPointPlan) -> (destination:
        Destination)
        ensures
            destination@ == spec_destination_plan(
                args@,
                branch@,
                replacement_views(git.config.add.branch_replacements@),
            ),
    {
        let rules = &git.config.add.branch_replacements;
        match &args.inner.name_or_path {
            Some(name_or_path) => {
                let chars = to_chars(name_or_path.as_str());
                proof {
                    lemma_find_from_bounds(chars@, 0, '/');
                }
                if find_from(&chars, 0, '/') < chars.len() {
                    Destination::Path(name_or_path.clone())
                } else {
                    Destination::InContainer(dirname_for(rules, name_or_path.as_str()))
                }
            },
            None => {
                let name = match branch {
                    BranchStartPointPlan::New { branch, .. } => branch.branch_name(),
                    BranchStartPointPlan::Existing(branch) => branch.branch_name(),
                    BranchStartPointPlan::Detach(start) => start.commitish(),
                };
                Destination::InContainer(dirname_for(rules, name))
            },
        }
    }

    /// The `git worktree add` command of the plan.
    pub fn command(&self) -> (command: GitCommand)
        ensures
            command@ == self@.command(),
    {
        let (force_branch, track, create_branch) = match &self.branch {
            BranchStartPointPlan::New { force, branch, start } => (
                *force,
                matches!(start, StartPoint::Branch(_)),
                Some(branch),
            ),
            BranchStartPointPlan::Detach(_) => (false, false, None),
            BranchStartPointPlan::Existing(_) => (false, false, None),
        };
        let options = AddWorktreeOpts {
            force_branch,
            create_branch,
            checkout: true,
            guess_remote: false,
            track,
            start_point: Some(
                match &self.branch {
                    BranchStartPointPlan::Existing(branch) => branch.branch_name(),
                    BranchStartPointPlan::New { start, .. } => start.commitish(),
                    BranchStartPointPlan::Detach(start) => start.commitish(),
                },
            ),
            detach: matches!(self.branch, BranchStartPointPlan::Detach(_)),
        };
        GitWorktree::new(&self.git).add_command(self.destination.as_str(), &options)
    }

    /// The plan as it is shown.
    pub fn to_string(&self) -> (text: String)
        ensures
            text@ == self@.describe(),
    {
        let mut text = String::from_str("Creating worktree in ");
        text.append(self.destination.as_str());
        text.append(" ");
        text.append(self.branch.to_string().as_str());
        if self.copy_ignored.len() > 0 {
            text.append("\nCopying ");
            text.append(decimal(self.copy_ignored.len() as u128).as_str());
            text.append(" ignored paths to new worktree");
            assert(text@ =~= self@.describe());
        } else {
            assert(text@ =~= self@.describe());
        }
        text
    }

    /// The steps that carry out the plan, in order; see [`WorktreePlanModel::steps`].
    /// `destination_exists` says whether something is at the destination already:
    /// then no worktree is added.
    ///
    /// See [`Self::steps_to_run`] for what is left of them in a dry run.
    pub fn execute(&self, destination_exists: bool) -> (steps: Result<Vec<AddStep>, DestinationExists>)
        ensures
            match steps {
                Ok(list) => !destination_exists && add_step_views(list@) == self@.steps(),
                Err(error) => destination_exists && error.destination@ == self@.destination,
            },
    {
        if destination_exists {
            return Err(DestinationExists { destination: self.destination.clone() });
        }
        let mut steps: Vec<AddStep> = Vec::new();
        steps.push(AddStep::Git(self.command()));
        assert(add_step_views(steps@) =~= seq![AddStepModel::Git(self@.command())] + self@.copy_steps().take(
            0,
        ));
        let mut k: usize = 0;
        while k < self.copy_ignored.len()
            invariant
                k <= self.copy_ignored@.len(),
                add_step_views(steps@) == seq![AddStepModel::Git(self@.command())]
                    + self@.copy_steps().take(k as int),
            decreases self.copy_ignored@.len() - k,
        {
            let entry = &self.copy_ignored[k];
            assert(self@.copy_ignored[k as int] == entry@);
            let ghost before = add_step_views(steps@);
            let step = AddStep::CopyDir {
                from: join(self.git.git.get_current_dir(), entry.path.as_str()),
                to: join(self.destination.as_str(), entry.path.as_str()),
            };
            steps.push(step);
            assert(add_step_views(steps@) =~= before.push(step@));
            assert(add_step_views(steps@) =~= seq![AddStepModel::Git(self@.command())]
                + self@.copy_steps().take(k + 1));
            k = k + 1;
        }
        assert(self@.copy_steps().take(k as int) =~= self@.copy_steps());
        let commands = self.git.config.add.commands();
        let ghost front = add_step_views(steps@);
        let mut k: usize = 0;
        assert(front + self@.run_steps().take(0) =~= front);
        while k < commands.len()
            invariant
                k <= commands@.len(),
                *commands == self.git.config.add.commands,
                front == seq![AddStepModel::Git(self@.command())] + self@.copy_steps(),
                add_step_views(steps@) == front + self@.run_steps().take(k as int),
            decreases commands@.len() - k,
        {
            let command = &commands[k];
            assert(self@.commands[k as int] == command@);
            let ghost before = add_step_views(steps@);
            let step = AddStep::Run { argv: command.as_command(), current_dir: self.destination.clone() };
            steps.push(step);
            assert(add_step_views(steps@) =~= before.push(step@));
            assert(add_step_views(steps@) =~= front + self@.run_steps().take(k + 1));
            k = k + 1;
        }
        assert(self@.run_steps().take(k as int) =~= self@.run_steps());
        Ok(steps)
    }

    /// The steps to carry out now: those of [`Self::execute`], and none in a dry run,
    /// in which the plan and its command are shown and nothing is run. A destination
    /// that exists is an error in a dry run too.
    pub fn steps_to_run(&self, destination_exists: bool, dry_run: bool) -> (steps: Result<
        Vec<AddStep>,
        DestinationExists,
    >)
        ensures
            match steps {
                Ok(list) => !destination_exists && add_step_views(list@) == if dry_run {
                    Seq::<AddStepModel>::empty()
                } else {
                    self@.steps()
                },
                Err(error) => destination_exists && error.destination@ == self@.destination,
            },
    {
        if destination_exists {
            return Err(DestinationExists { destination: self.destination.clone() });
        }
        if dry_run {
            let list: Vec<AddStep> = Vec::new();
            assert(add_step_views(list@) =~= Seq::<AddStepModel>::empty());
            Ok(list)
        } else {
            self.execute(destination_exists)
        }
    }
}

} // verus!
