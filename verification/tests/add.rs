use git_prole::add::AddError;
use git_prole::add::AddStep;
use git_prole::add::BranchAnswers;
use git_prole::add::BranchQuery;
use git_prole::add::Destination;
use git_prole::add::PlanStep;
use git_prole::AddArgs;
use git_prole::AddArgsInner;
use git_prole::BranchRef;
use git_prole::BranchReplacement;
use git_prole::BranchStartPointPlan;
use git_prole::ConfigFile;
use git_prole::Git;
use git_prole::GitBranch;
use git_prole::GitRemote;
use git_prole::LocalBranchRef;
use git_prole::Ref;
use git_prole::RemoteBranchRef;
use git_prole::ShellArgs;
use git_prole::ShellCommand;
use git_prole::StartPoint;
use git_prole::Status;
use git_prole::WorktreePlan;

/// What a repository knows of its branches.
struct Repo {
    local: Vec<&'static str>,
    remote: Vec<&'static str>,
    default_remote: Option<&'static str>,
    preferred: Option<BranchRef>,
}

impl Repo {
    /// A repository with the local branch `main` and no remote.
    fn worktree_repo(local: &[&'static str]) -> Self {
        Self {
            local: local.to_vec(),
            remote: Vec::new(),
            default_remote: None,
            preferred: Some(BranchRef::Local(LocalBranchRef::from("main"))),
        }
    }

    /// A clone of a repository with the branches `remote` on `origin`.
    fn cloned(local: &[&'static str], remote: &[&'static str]) -> Self {
        Self {
            local: local.to_vec(),
            remote: remote.to_vec(),
            default_remote: None,
            preferred: Some(BranchRef::Remote(RemoteBranchRef::new("origin", "main"))),
        }
    }

    fn local_or_remote(&self, name: &str) -> Option<BranchRef> {
        let exists_on_remotes = self
            .remote
            .iter()
            .filter(|qualified| qualified.split_once('/').unwrap().1 == name)
            .map(|qualified| Ref::new("remotes".into(), qualified.to_string()))
            .collect();
        GitBranch::local_or_remote(
            name,
            self.local.contains(&name),
            GitRemote::unique_for_branch(exists_on_remotes, self.default_remote),
        )
    }
}

fn args(
    branch: Option<&str>,
    force_branch: Option<&str>,
    detach: bool,
    name_or_path: Option<&str>,
    commitish: Option<&str>,
) -> AddArgs {
    AddArgs {
        inner: AddArgsInner {
            branch: branch.map(String::from),
            force_branch: force_branch.map(String::from),
            detach,
            name_or_path: name_or_path.map(String::from),
        },
        commitish: commitish.map(String::from),
        worktree_add_args: Vec::new(),
    }
}

/// Plans as the program does: asks the repository what the plan asks for.
fn plan_with_questions(args: &AddArgs, repo: &Repo) -> (Result<BranchStartPointPlan, AddError>, Vec<BranchQuery>) {
    let mut answers = BranchAnswers::new();
    let mut asked = Vec::new();
    loop {
        match BranchStartPointPlan::new(args, &Vec::new(), &answers) {
            Err(error) => return (Err(error), asked),
            Ok(PlanStep::Plan(plan)) => return (Ok(plan), asked),
            Ok(PlanStep::Ask(BranchQuery::LocalOrRemote(name))) => {
                assert!(answers.local_or_remote.is_none());
                answers.local_or_remote = Some(repo.local_or_remote(&name));
                asked.push(BranchQuery::LocalOrRemote(name));
            }
            Ok(PlanStep::Ask(BranchQuery::Preferred)) => {
                assert!(answers.preferred.is_none());
                answers.preferred = Some(repo.preferred.clone());
                asked.push(BranchQuery::Preferred);
            }
        }
    }
}

fn plan(args: &AddArgs, repo: &Repo) -> Result<BranchStartPointPlan, AddError> {
    plan_with_questions(args, repo).0
}

/// The arguments of `git worktree add` for the plan of a worktree in `/my-repo`.
fn command(args: &AddArgs, repo: &Repo) -> Vec<String> {
    let config = ConfigFile::new();
    let git = Git::from_path("/my-repo/main".into()).with_config(&config);
    let branch = plan(args, repo).unwrap();
    let destination = match WorktreePlan::destination_plan(&git, args, &branch) {
        Destination::InContainer(name) => format!("/my-repo/{name}"),
        Destination::Path(path) => format!("/absolute/{path}"),
    };
    WorktreePlan::new(git, destination, branch, Vec::new()).command().args
}

fn local(name: &str) -> LocalBranchRef {
    LocalBranchRef::from(name)
}

fn new_branch(force: bool, branch: &str, start: StartPoint) -> BranchStartPointPlan {
    BranchStartPointPlan::New { force, branch: local(branch), start }
}

fn start_local(name: &str) -> StartPoint {
    StartPoint::Branch(BranchRef::Local(local(name)))
}

fn start_remote(remote: &str, name: &str) -> StartPoint {
    StartPoint::Branch(BranchRef::Remote(RemoteBranchRef::new(remote, name)))
}

#[test]
fn add_by_name_existing_local() {
    // `puppy` is a local branch: it is checked out, and no branch is created.
    let repo = Repo::worktree_repo(&["main", "puppy"]);
    let args = args(None, None, false, Some("puppy"), None);
    assert_eq!(plan(&args, &repo), Ok(BranchStartPointPlan::Existing(local("puppy"))));
    assert_eq!(command(&args, &repo), ["worktree", "add", "/my-repo/puppy", "puppy"]);
}

#[test]
fn add_by_name_new_local() {
    // No `puppy` anywhere: a new branch that tracks the default branch, whatever is
    // checked out.
    let repo = Repo::worktree_repo(&["main", "doggy"]);
    let args = args(None, None, false, Some("puppy"), None);
    assert_eq!(plan(&args, &repo), Ok(new_branch(false, "puppy", start_local("main"))));
    assert_eq!(
        command(&args, &repo),
        ["worktree", "add", "-b", "puppy", "--track", "/my-repo/puppy", "main"]
    );
}

#[test]
fn add_by_name_existing_remote() {
    // A unique `origin/puppy` and no local `puppy`: a local `puppy` that tracks it.
    let repo = Repo::cloned(&["main"], &["origin/main", "origin/puppy"]);
    let args = args(None, None, false, Some("puppy"), None);
    assert_eq!(
        plan(&args, &repo),
        Ok(new_branch(false, "puppy", start_remote("origin", "puppy")))
    );
    assert_eq!(
        command(&args, &repo),
        ["worktree", "add", "-b", "puppy", "--track", "/my-repo/puppy", "origin/puppy"]
    );
}

#[test]
fn add_branch_new_local() {
    let repo = Repo::worktree_repo(&["main"]);
    let args = args(Some("puppy"), None, false, None, None);
    assert_eq!(plan(&args, &repo), Ok(new_branch(false, "puppy", start_local("main"))));
    assert_eq!(
        command(&args, &repo),
        ["worktree", "add", "-b", "puppy", "--track", "/my-repo/puppy", "main"]
    );
}

#[test]
fn add_branch_start_point_existing_local() {
    let repo = Repo::worktree_repo(&["main", "doggy"]);
    let args = args(Some("softy"), None, false, Some("puppy"), Some("doggy"));
    assert_eq!(plan(&args, &repo), Ok(new_branch(false, "softy", start_local("doggy"))));
    assert_eq!(
        command(&args, &repo),
        ["worktree", "add", "-b", "softy", "--track", "/my-repo/puppy", "doggy"]
    );
}

#[test]
fn add_branch_start_point_existing_remote() {
    let repo = Repo::cloned(&["main"], &["origin/main", "origin/puppy"]);
    let args = args(Some("softie"), None, false, Some("doggy"), Some("puppy"));
    assert_eq!(
        plan(&args, &repo),
        Ok(new_branch(false, "softie", start_remote("origin", "puppy")))
    );
    assert_eq!(
        command(&args, &repo),
        ["worktree", "add", "-b", "softie", "--track", "/my-repo/doggy", "origin/puppy"]
    );
}

#[test]
fn add_branch_start_point_new_local() {
    // `@` names no branch: the new branch starts at the commit and tracks nothing.
    let repo = Repo::worktree_repo(&["main", "puppy"]);
    let args = args(Some("softy"), None, false, Some("doggy"), Some("@"));
    assert_eq!(
        plan(&args, &repo),
        Ok(new_branch(false, "softy", StartPoint::Commitish("@".into())))
    );
    assert_eq!(
        command(&args, &repo),
        ["worktree", "add", "-b", "softy", "/my-repo/doggy", "@"]
    );
}

#[test]
fn add_start_point_existing_local() {
    // The worktree is named `puppy`; the branch is the existing `doggy`.
    let repo = Repo::worktree_repo(&["main", "doggy"]);
    let args = args(None, None, false, Some("puppy"), Some("doggy"));
    assert_eq!(plan(&args, &repo), Ok(BranchStartPointPlan::Existing(local("doggy"))));
    assert_eq!(command(&args, &repo), ["worktree", "add", "/my-repo/puppy", "doggy"]);
}

#[test]
fn add_start_point_existing_remote() {
    // The worktree is named `doggy`; the branch is a new `puppy` that tracks
    // `origin/puppy`.
    let repo = Repo::cloned(&["main"], &["origin/main", "origin/puppy"]);
    let args = args(None, None, false, Some("doggy"), Some("puppy"));
    assert_eq!(
        plan(&args, &repo),
        Ok(new_branch(false, "puppy", start_remote("origin", "puppy")))
    );
    assert_eq!(
        command(&args, &repo),
        ["worktree", "add", "-b", "puppy", "--track", "/my-repo/doggy", "origin/puppy"]
    );
}

#[test]
fn add_start_point_new_local() {
    let repo = Repo::worktree_repo(&["main", "puppy"]);
    let args = args(None, None, false, Some("doggy"), Some("@"));
    assert_eq!(
        plan(&args, &repo),
        Ok(new_branch(false, "doggy", StartPoint::Commitish("@".into())))
    );
    assert_eq!(
        command(&args, &repo),
        ["worktree", "add", "-b", "doggy", "/my-repo/doggy", "@"]
    );
}

#[test]
fn add_branch_force() {
    // `-b puppy` makes a new branch even where `puppy` exists; `-B puppy` resets it.
    let repo = Repo::worktree_repo(&["main", "puppy"]);
    let create = args(Some("puppy"), None, false, None, None);
    assert_eq!(plan(&create, &repo), Ok(new_branch(false, "puppy", start_local("main"))));
    let force = args(None, Some("puppy"), false, None, None);
    assert_eq!(plan(&force, &repo), Ok(new_branch(true, "puppy", start_local("main"))));
    assert_eq!(
        command(&force, &repo),
        ["worktree", "add", "-B", "puppy", "--track", "/my-repo/puppy", "main"]
    );
}

#[test]
fn add_detached() {
    let repo = Repo::worktree_repo(&["main"]);
    let args = args(None, None, true, Some("puppy"), None);
    assert_eq!(plan(&args, &repo), Ok(BranchStartPointPlan::Detach(start_local("main"))));
    assert_eq!(
        command(&args, &repo),
        ["worktree", "add", "--detach", "/my-repo/puppy", "main"]
    );
}

#[test]
fn add_detached_start_point() {
    let repo = Repo::worktree_repo(&["main", "silly"]);
    let args = args(None, None, true, Some("puppy"), Some("silly"));
    assert_eq!(plan(&args, &repo), Ok(BranchStartPointPlan::Detach(start_local("silly"))));
    assert_eq!(
        command(&args, &repo),
        ["worktree", "add", "--detach", "/my-repo/puppy", "silly"]
    );
}

#[test]
fn add_branch_and_path() {
    let repo = Repo::worktree_repo(&["main"]);
    let args = args(Some("doggy"), None, false, Some("../puppy"), None);
    assert_eq!(plan(&args, &repo), Ok(new_branch(false, "doggy", start_local("main"))));
    assert_eq!(
        command(&args, &repo),
        ["worktree", "add", "-b", "doggy", "--track", "/absolute/../puppy", "main"]
    );
}

#[test]
fn add_by_path_existing_branch() {
    // Of a path, only the last component is used as the branch name.
    let repo = Repo::worktree_repo(&["main", "puppy"]);
    let args = args(None, None, false, Some("../../puppy"), None);
    let (planned, asked) = plan_with_questions(&args, &repo);
    assert_eq!(planned, Ok(BranchStartPointPlan::Existing(local("puppy"))));
    assert_eq!(asked, [BranchQuery::LocalOrRemote("puppy".into())]);
    assert_eq!(command(&args, &repo), ["worktree", "add", "/absolute/../../puppy", "puppy"]);
}

#[test]
fn add_from_container_no_default_branch() {
    // Without a default branch, a commitish still gives a start point.
    let mut repo = Repo::worktree_repo(&["puppy"]);
    repo.preferred = None;
    let with_start = args(None, None, false, Some("doggy"), Some("@"));
    let (planned, asked) = plan_with_questions(&with_start, &repo);
    assert_eq!(planned, Ok(new_branch(false, "doggy", StartPoint::Commitish("@".into()))));
    assert_eq!(asked, [BranchQuery::LocalOrRemote("@".into())]);
    // Without one, there is nothing to start at.
    let without = args(None, None, false, Some("doggy"), None);
    let (planned, asked) = plan_with_questions(&without, &repo);
    assert_eq!(planned, Err(AddError::NoDefaultBranch));
    assert_eq!(
        asked,
        [BranchQuery::LocalOrRemote("doggy".into()), BranchQuery::Preferred]
    );
    assert_eq!(
        AddError::NoDefaultBranch.to_string(),
        "No default branch found; pass a COMMITISH to start the new worktree at"
    );
}

#[test]
fn add_destination_exists() {
    let config = ConfigFile::new();
    let git = Git::from_path("/my-repo/main".into()).with_config(&config);
    let plan = WorktreePlan::new(
        git,
        "/my-repo/puppy".into(),
        BranchStartPointPlan::Existing(local("puppy")),
        Vec::new(),
    );
    let error = plan.execute(true).unwrap_err();
    assert_eq!(error.to_string(), "Worktree destination /my-repo/puppy already exists");
    assert_eq!(plan.execute(false).unwrap().len(), 1);
}

#[test]
fn add_invalid_arguments() {
    let repo = Repo::worktree_repo(&["main"]);
    assert_eq!(
        plan_with_questions(&args(Some("a"), Some("b"), false, Some("c"), None), &repo),
        (Err(AddError::ConflictingBranchFlags), Vec::new())
    );
    assert_eq!(
        plan_with_questions(&args(None, None, false, None, Some("main")), &repo),
        (Err(AddError::MissingNameOrPath), Vec::new())
    );
    assert_eq!(
        AddError::ConflictingBranchFlags.to_string(),
        "`--branch` and `--force-branch` are mutually exclusive"
    );
    assert_eq!(
        AddError::MissingNameOrPath.to_string(),
        "If `--branch` is not given, `NAME_OR_PATH` must be given"
    );
}

#[test]
fn add_asks_only_what_it_needs() {
    let repo = Repo::cloned(&["main", "doggy"], &["origin/main", "origin/puppy"]);
    // A commitish that names a branch: the default branch is not asked for.
    let (_, asked) = plan_with_questions(&args(Some("x"), None, false, None, Some("doggy")), &repo);
    assert_eq!(asked, [BranchQuery::LocalOrRemote("doggy".into())]);
    // `--branch` without a commitish: only the default branch is asked for.
    let (planned, asked) = plan_with_questions(&args(Some("x"), None, false, Some("doggy"), None), &repo);
    assert_eq!(asked, [BranchQuery::Preferred]);
    assert_eq!(planned, Ok(new_branch(false, "x", start_remote("origin", "main"))));
    // A name that is a branch: the default branch is not asked for.
    let (_, asked) = plan_with_questions(&args(None, None, false, Some("puppy"), None), &repo);
    assert_eq!(asked, [BranchQuery::LocalOrRemote("puppy".into())]);
}

#[test]
fn add_ambiguous_remote_branch() {
    // `puppy` is on two remotes: without a default remote it names no branch.
    let mut repo = Repo::cloned(&["main"], &["origin/puppy", "fork/puppy"]);
    let args = args(None, None, false, Some("puppy"), None);
    assert_eq!(
        plan(&args, &repo),
        Ok(new_branch(false, "puppy", start_remote("origin", "main")))
    );
    // With a default remote, it is the branch on that.
    repo.default_remote = Some("fork");
    assert_eq!(
        plan(&args, &repo),
        Ok(new_branch(false, "puppy", start_remote("fork", "puppy")))
    );
    // A default remote that has no such branch does not help.
    repo.default_remote = Some("upstream");
    assert_eq!(
        plan(&args, &repo),
        Ok(new_branch(false, "puppy", start_remote("origin", "main")))
    );
}

#[test]
fn add_plan_display() {
    assert_eq!(BranchStartPointPlan::Existing(local("puppy")).to_string(), "for puppy");
    assert_eq!(
        new_branch(false, "puppy", start_remote("origin", "puppy")).to_string(),
        "for puppy tracking origin/puppy"
    );
    assert_eq!(
        new_branch(true, "puppy", StartPoint::Commitish("@".into())).to_string(),
        "for puppy starting at @"
    );
    assert_eq!(
        BranchStartPointPlan::Detach(start_local("main")).to_string(),
        "detached starting at main"
    );
    assert_eq!(start_remote("origin", "a/b").commitish(), "origin/a/b");
    assert_eq!(StartPoint::Commitish("HEAD~2".into()).to_string(), "HEAD~2");
    assert_eq!(
        StartPoint::new(Some("x"), None, None),
        Ok(StartPoint::Commitish("x".into()))
    );
    assert_eq!(StartPoint::preferred(None), Err(AddError::NoDefaultBranch));
    assert_eq!(
        BranchStartPointPlan::from_commitish(Some(BranchRef::Local(local("a")))),
        Some(BranchStartPointPlan::Existing(local("a")))
    );
    assert_eq!(BranchStartPointPlan::from_commitish(None), None);
    assert_eq!(
        BranchStartPointPlan::from_branch(BranchRef::Remote(RemoteBranchRef::new("origin", "x/y"))),
        new_branch(false, "x/y", start_remote("origin", "x/y"))
    );
    assert_eq!(
        BranchStartPointPlan::new_detached(None, None, Some(BranchRef::Local(local("main")))),
        Ok(BranchStartPointPlan::Detach(start_local("main")))
    );
    assert_eq!(
        BranchStartPointPlan::new_branch_at(true, "x", Some("y"), None, None),
        Ok(new_branch(true, "x", StartPoint::Commitish("y".into())))
    );
}

#[test]
fn add_plan_steps() {
    let mut config = ConfigFile::new();
    config.add.commands = vec![
        ShellCommand::Simple(ShellArgs::parse("direnv allow 'my dir'").unwrap()),
        ShellCommand::Shell { sh: "\n    if true; then\n      echo hi\n    fi\n  ".into() },
    ];
    let mut git = Git::from_path("/my-repo/main".into());
    git.arg("--no-pager".into());
    let status = Status::parser("!! target/\0 M src/lib.rs\0!! .env\0").unwrap();
    let plan = WorktreePlan::new(
        git.with_config(&config),
        "/my-repo/puppy".into(),
        new_branch(false, "puppy", start_local("main")),
        WorktreePlan::copy_ignored_plan(&status),
    );
    assert_eq!(
        plan.to_string(),
        "Creating worktree in /my-repo/puppy for puppy tracking main\nCopying 2 ignored paths to new worktree"
    );
    let steps = plan.execute(false).unwrap();
    assert_eq!(steps.len(), 5);
    match &steps[0] {
        AddStep::Git(command) => {
            assert_eq!(command.program(), "git");
            assert_eq!(command.current_dir, "/my-repo/main");
            assert_eq!(
                command.args,
                ["--no-pager", "worktree", "add", "-b", "puppy", "--track", "/my-repo/puppy", "main"]
            );
        }
        other => panic!("{other:?}"),
    }
    assert_eq!(
        steps[1],
        AddStep::CopyDir { from: "/my-repo/main/target/".into(), to: "/my-repo/puppy/target/".into() }
    );
    assert_eq!(
        steps[2],
        AddStep::CopyDir { from: "/my-repo/main/.env".into(), to: "/my-repo/puppy/.env".into() }
    );
    assert_eq!(
        steps[3],
        AddStep::Run {
            argv: vec!["direnv".into(), "allow".into(), "my dir".into()],
            current_dir: "/my-repo/puppy".into()
        }
    );
    assert_eq!(
        steps[4],
        AddStep::Run {
            argv: vec!["sh".into(), "-c".into(), "if true; then\n  echo hi\nfi".into()],
            current_dir: "/my-repo/puppy".into()
        }
    );
}

/// The plan and the destination of `add` with the rules `rules` configured.
fn plan_with_rules(
    args: &AddArgs,
    rules: Vec<BranchReplacement>,
) -> (BranchStartPointPlan, Destination) {
    let mut config = ConfigFile::new();
    config.add.branch_replacements = rules;
    let git = Git::from_path("/my-repo/main".into()).with_config(&config);
    let mut answers = BranchAnswers::new();
    answers.local_or_remote = Some(None);
    answers.preferred = Some(Some(BranchRef::Local(local("main"))));
    let branch = match BranchStartPointPlan::new(args, config.add.branch_replacements(), &answers) {
        Ok(PlanStep::Plan(plan)) => plan,
        other => panic!("{other:?}"),
    };
    let destination = WorktreePlan::destination_plan(&git, args, &branch);
    (branch, destination)
}

fn rule(find: &str, replace: &str, count: Option<usize>) -> BranchReplacement {
    BranchReplacement::new(find, replace, count).unwrap()
}

#[test]
fn config_branch_replacements_default() {
    let name = "doggy/puppy";
    let (branch, destination) = plan_with_rules(&args(Some(name), None, false, None, None), Vec::new());
    assert_eq!(branch, new_branch(false, name, start_local("main")));
    assert_eq!(destination, Destination::InContainer("puppy".into()));
}

#[test]
fn config_add_branch_replacements() {
    let name = "doggy/pup-1234-my-cool-feature-with-very-very-very-long-name";
    let (branch, destination) = plan_with_rules(
        &args(Some(name), None, false, None, None),
        vec![rule(r"\w+/\w{1,4}-\d{1,5}-(\w+(?:-\w+){0,2}).*", "$1", None)],
    );
    assert_eq!(branch, new_branch(false, name, start_local("main")));
    assert_eq!(destination, Destination::InContainer("my-cool-feature".into()));
}

#[test]
fn config_add_branch_replacements_count() {
    let (branch, destination) = plan_with_rules(
        &args(Some("puppypuppypuppy"), None, false, None, None),
        vec![rule("puppy", "doggy", Some(1))],
    );
    assert_eq!(branch, new_branch(false, "puppypuppypuppy", start_local("main")));
    assert_eq!(destination, Destination::InContainer("doggypuppypuppy".into()));
}

#[test]
fn config_add_branch_replacements_multiple() {
    let (branch, destination) = plan_with_rules(
        &args(Some("silly-puppy"), None, false, None, None),
        vec![rule("puppy", "doggy", None), rule("doggy", "cutie", None)],
    );
    assert_eq!(branch, new_branch(false, "silly-puppy", start_local("main")));
    assert_eq!(destination, Destination::InContainer("silly-cutie".into()));
}

#[test]
fn config_add_branch_replacements_path_separator() {
    // The last component of the result of the replacements is used.
    let (branch, destination) = plan_with_rules(
        &args(Some("puppy/doggy"), None, false, None, None),
        vec![rule("doggy", "silly", None)],
    );
    assert_eq!(branch, new_branch(false, "puppy/doggy", start_local("main")));
    assert_eq!(destination, Destination::InContainer("silly".into()));
}

#[test]
fn add_name_with_branch_replacements() {
    // The rules make the branch name of a name or path, too.
    let (branch, destination) = plan_with_rules(
        &args(None, None, false, Some("../x/team-puppy"), None),
        vec![rule("team-", "", None)],
    );
    assert_eq!(branch, new_branch(false, "puppy", start_local("main")));
    assert_eq!(destination, Destination::Path("../x/team-puppy".into()));
    let (branch, destination) = plan_with_rules(
        &args(None, None, false, Some("team-puppy"), None),
        vec![rule("^team-", "", None)],
    );
    assert_eq!(branch, new_branch(false, "puppy", start_local("main")));
    assert_eq!(destination, Destination::InContainer("puppy".into()));
}

#[test]
fn add_from_container() {
    // Outside of any working tree, the worktree of the default branch is the place
    // to work in.
    let config = ConfigFile::new();
    let app = Git::from_path("/my-repo".into()).with_config(&config);
    let worktrees = git_prole::Worktrees::new(
        git_prole::Worktree::new_bare("/my-repo/.git"),
        vec![git_prole::Worktree::new_branch(
            "/my-repo/main",
            git_prole::CommitHash::fake(),
            local("main"),
        )],
    );
    let preferred = BranchRef::Local(local("main"));
    assert_eq!(
        git_prole::GitWorktree::new(&app).find_some(&worktrees, Some(&preferred)),
        "/my-repo/main"
    );
    let repo = Repo::worktree_repo(&["main"]);
    let args = args(None, None, false, Some("puppy"), None);
    assert_eq!(plan(&args, &repo), Ok(new_branch(false, "puppy", start_local("main"))));
}

#[test]
fn add_from_bare_no_worktrees() {
    // A bare repository without worktrees: the bare worktree is the place to work in.
    let config = ConfigFile::new();
    let app = Git::from_path("/my-repo".into()).with_config(&config);
    let worktrees = git_prole::Worktrees::new(git_prole::Worktree::new_bare("/my-repo/.git"), Vec::new());
    let preferred = BranchRef::Local(local("main"));
    assert_eq!(
        git_prole::GitWorktree::new(&app).find_some(&worktrees, Some(&preferred)),
        "/my-repo/.git"
    );
    assert_eq!(
        git_prole::GitWorktree::new(&app).container(worktrees.main()),
        Some("/my-repo".to_owned())
    );
}

#[test]
fn add_dry_run_runs_nothing() {
    let config = ConfigFile::new();
    let git = Git::from_path("/my-repo/main".into()).with_config(&config);
    let plan = WorktreePlan::new(
        git,
        "/my-repo/puppy".into(),
        BranchStartPointPlan::Existing(local("puppy")),
        Vec::new(),
    );
    assert_eq!(plan.steps_to_run(false, true).unwrap(), []);
    assert_eq!(plan.steps_to_run(false, false).unwrap(), plan.execute(false).unwrap());
    assert_eq!(plan.steps_to_run(false, false).unwrap().len(), 1);
    let error = plan.steps_to_run(true, true).unwrap_err();
    assert_eq!(error.to_string(), "Worktree destination /my-repo/puppy already exists");
}
