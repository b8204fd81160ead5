use std::str::FromStr;

use git_prole::convert::ConvertError;
use git_prole::convert::ConvertInputs;
use git_prole::convert::ConvertStep;
use git_prole::convert::NewWorktreePlan;
use git_prole::BranchRef;
use git_prole::BranchReplacement;
use git_prole::CommitHash;
use git_prole::ConfigFile;
use git_prole::ConvertPlan;
use git_prole::Git;
use git_prole::LocalBranchRef;
use git_prole::Ref;
use git_prole::RemoteBranchRef;
use git_prole::Worktree;
use git_prole::Worktrees;

const HASH: &str = "4023d08019c45f462a9469778e78c3a1faad5013";

fn on_branch(path: &str, name: &str) -> Worktree {
    Worktree::new_branch(path, CommitHash::new(HASH.into()), LocalBranchRef::from(name))
}

fn detached(path: &str) -> Worktree {
    Worktree::new_detached(path, CommitHash::new(HASH.into()))
}

fn local(name: &str) -> BranchRef {
    BranchRef::Local(LocalBranchRef::from(name))
}

fn remote(remote: &str, name: &str) -> BranchRef {
    BranchRef::Remote(RemoteBranchRef::new(remote, name))
}

fn inputs(worktrees: Worktrees, destination: &str, default_branch: BranchRef) -> ConvertInputs {
    ConvertInputs {
        tempdir: "/tmp/t".into(),
        repo: "/work/my-repo/.git".into(),
        worktrees,
        destination: destination.into(),
        default_branch,
        default_branch_exists_locally: false,
    }
}

/// The steps of the plan, one line for each.
fn show(steps: &[ConvertStep]) -> Vec<String> {
    steps
        .iter()
        .map(|step| match step {
            ConvertStep::Rename { from, to } => format!("mv {from} {to}"),
            ConvertStep::CreateDirAll(path) => format!("mkdir -p {path}"),
            ConvertStep::RemoveDir(path) => format!("rmdir {path}"),
            ConvertStep::Git(command) => {
                format!("cd {} && git {}", command.current_dir, command.args.join(" "))
            }
        })
        .collect()
}

fn names(plan: &ConvertPlan<'_>) -> Vec<(String, String)> {
    plan.worktrees()
        .iter()
        .map(|plan| (plan.worktree.path.clone(), plan.name.clone()))
        .collect()
}

fn pairs(items: &[(&str, &str)]) -> Vec<(String, String)> {
    items.iter().map(|(a, b)| (a.to_string(), b.to_string())).collect()
}

#[test]
fn convert_default_branch_checked_out() {
    // A plain repository with `main` checked out becomes a bare repository and a
    // `main` worktree, with `core.bare` set in the `.git` that moves.
    let config = ConfigFile::new();
    let git = Git::from_path("/work/my-repo".into()).with_config(&config);
    let worktrees = Worktrees::new(on_branch("/work/my-repo", "main"), Vec::new());
    let plan = ConvertPlan::new(git, inputs(worktrees, "/work/my-repo", local("main"))).unwrap();
    assert_eq!(plan.repo(), "/work/my-repo");
    assert_eq!(plan.destination(), "/work/my-repo");
    assert_eq!(plan.tempdir(), "/tmp/t");
    assert_eq!(names(&plan), pairs(&[("/work/my-repo", "main")]));
    assert_eq!(plan.new_worktrees(), &[]);
    assert_eq!(plan.make_bare().unwrap().inner.name, "main");
    assert!(plan.make_bare().unwrap().inner.worktree.is_main);
    assert!(!plan.is_no_op());
    assert_eq!(
        show(&plan.execute()),
        [
            "mv /work/my-repo/.git /tmp/t/.git",
            "cd /tmp/t/.git && git config set core.bare true",
            "mv /work/my-repo /tmp/t/main",
            "mkdir -p /work/my-repo",
            "mv /tmp/t/.git /work/my-repo/.git",
            "cd /work/my-repo/.git && git worktree add --no-checkout /work/my-repo/main main",
            "cd /work/my-repo/main && git reset",
            "mv /work/my-repo/main/.git /tmp/t/main/.git",
            "rmdir /work/my-repo/main",
            "mv /tmp/t/main /work/my-repo/main",
            "cd /work/my-repo && git worktree repair /work/my-repo/main",
        ]
    );
    assert_eq!(
        plan.to_string(),
        "Converting /work/my-repo to a worktree repository.\n\
         I'll move the following worktrees to new locations:\n\
         • /work/my-repo -> /work/my-repo/main\n\
         Additionally, I'll convert the repository to a bare repository."
    );
}

#[test]
fn convert_non_default_branch_checked_out() {
    let config = ConfigFile::new();
    let git = Git::from_path("/work/my-repo".into()).with_config(&config);
    let worktrees = Worktrees::new(on_branch("/work/my-repo", "puppy"), Vec::new());
    let plan = ConvertPlan::new(git, inputs(worktrees, "/work/my-repo", local("main"))).unwrap();
    assert_eq!(names(&plan), pairs(&[("/work/my-repo", "puppy")]));
    assert_eq!(
        plan.new_worktrees(),
        &[NewWorktreePlan { name: "main".into(), create_branch: None, start_point: local("main") }]
    );
    let steps = show(&plan.execute());
    assert_eq!(steps.len(), 12);
    assert_eq!(
        steps[5],
        "cd /work/my-repo/.git && git worktree add --no-checkout /work/my-repo/puppy puppy"
    );
    assert_eq!(steps[11], "cd /work/my-repo && git worktree add /work/my-repo/main main");
    assert_eq!(
        plan.to_string(),
        "Converting /work/my-repo to a worktree repository.\n\
         I'll move the following worktrees to new locations:\n\
         • /work/my-repo -> /work/my-repo/puppy\n\
         I'll also create new worktrees for the following branches:\n\
         • main in /work/my-repo/main\n\
         Additionally, I'll convert the repository to a bare repository."
    );
}

#[test]
fn convert_detached_head() {
    // The directory name `my-repo` is the name of the destination: it is not used
    // for the detached worktree.
    let config = ConfigFile::new();
    let git = Git::from_path("/work/my-repo".into()).with_config(&config);
    let worktrees = Worktrees::new(detached("/work/my-repo"), Vec::new());
    let plan = ConvertPlan::new(git, inputs(worktrees, "/work/my-repo", local("main"))).unwrap();
    assert_eq!(names(&plan), pairs(&[("/work/my-repo", "work")]));
    assert_eq!(plan.new_worktrees().len(), 1);
    let steps = show(&plan.execute());
    // The main worktree is attached at its commit, abbreviated.
    assert_eq!(
        steps[5],
        "cd /work/my-repo/.git && git worktree add --no-checkout /work/my-repo/work 4023d080"
    );
}

#[test]
fn convert_uncommitted_changes() {
    // The index of the main worktree is reset after it is attached: staged changes
    // become unstaged ones.
    let config = ConfigFile::new();
    let git = Git::from_path("/work/my-repo".into()).with_config(&config);
    let worktrees = Worktrees::new(on_branch("/work/my-repo", "main"), Vec::new());
    let plan = ConvertPlan::new(git, inputs(worktrees, "/work/my-repo", local("main"))).unwrap();
    let steps = show(&plan.execute());
    let attach = steps.iter().position(|step| step.contains("--no-checkout")).unwrap();
    assert_eq!(steps[attach + 1], "cd /work/my-repo/main && git reset");
    assert_eq!(steps.iter().filter(|step| step.ends_with("git reset")).count(), 1);
}

#[test]
fn convert_no_local_default_branch() {
    // The default branch is only on the remote: it is fetched, and a local branch
    // is created to track it.
    let config = ConfigFile::new();
    let git = Git::from_path("/work/my-repo".into()).with_config(&config);
    let worktrees = Worktrees::new(on_branch("/work/my-repo", "puppy"), Vec::new());
    let given = inputs(worktrees, "/work/my-repo", remote("origin", "main"));
    assert_eq!(
        ConvertPlan::needs_exists_local(&given.worktrees, &given.default_branch),
        Some("main".to_owned())
    );
    let plan = ConvertPlan::new(git, given).unwrap();
    assert_eq!(
        plan.new_worktrees(),
        &[NewWorktreePlan {
            name: "main".into(),
            create_branch: Some(LocalBranchRef::from("main")),
            start_point: remote("origin", "main"),
        }]
    );
    let steps = show(&plan.execute());
    assert_eq!(
        steps[0],
        "cd /work/my-repo && git fetch origin refs/heads/main:refs/remotes/origin/main"
    );
    assert_eq!(
        steps[12],
        "cd /work/my-repo && git worktree add -b main --track /work/my-repo/main origin/main"
    );
    assert_eq!(steps.len(), 13);
}

#[test]
fn convert_multiple_remotes() {
    // The default branch is a remote branch, and its local branch is checked out.
    let config = ConfigFile::new();
    let git = Git::from_path("/work/my-repo".into()).with_config(&config);
    let worktrees = Worktrees::new(on_branch("/work/my-repo", "main"), Vec::new());
    let given = inputs(worktrees, "/work/my-repo", remote("origin", "main"));
    assert_eq!(ConvertPlan::needs_exists_local(&given.worktrees, &given.default_branch), None);
    let plan = ConvertPlan::new(git, given).unwrap();
    assert_eq!(plan.new_worktrees(), &[]);
    assert_eq!(names(&plan), pairs(&[("/work/my-repo", "main")]));
    // The local branch exists, and is not checked out: it gets the new worktree.
    let git = Git::from_path("/work/my-repo".into()).with_config(&config);
    let worktrees = Worktrees::new(on_branch("/work/my-repo", "puppy"), Vec::new());
    let mut given = inputs(worktrees, "/work/my-repo", remote("origin", "main"));
    given.default_branch_exists_locally = true;
    let plan = ConvertPlan::new(git, given).unwrap();
    assert_eq!(
        plan.new_worktrees(),
        &[NewWorktreePlan { name: "main".into(), create_branch: None, start_point: local("main") }]
    );
    assert!(!show(&plan.execute()).iter().any(|step| step.contains("fetch")));
}

#[test]
fn convert_multiple_worktrees() {
    let config = ConfigFile::new();
    let git = Git::from_path("/work/my-repo".into()).with_config(&config);
    let worktrees = Worktrees::new(
        on_branch("/work/my-repo", "main"),
        vec![on_branch("/work/puppy", "puppy"), on_branch("/work/doggy", "doggy")],
    );
    let plan = ConvertPlan::new(git, inputs(worktrees, "/work/my-repo", local("main"))).unwrap();
    assert_eq!(
        names(&plan),
        pairs(&[("/work/doggy", "doggy"), ("/work/puppy", "puppy"), ("/work/my-repo", "main")])
    );
    let steps = show(&plan.execute());
    assert_eq!(
        &steps[2..5],
        [
            "mv /work/doggy /tmp/t/doggy",
            "mv /work/puppy /tmp/t/puppy",
            "mv /work/my-repo /tmp/t/main",
        ]
    );
    assert_eq!(
        steps.last().unwrap(),
        "cd /work/my-repo && git worktree repair /work/my-repo/doggy /work/my-repo/puppy /work/my-repo/main"
    );
}

#[test]
fn convert_common_prefix() {
    // Worktrees inside worktrees move before the worktrees around them.
    let config = ConfigFile::new();
    let git = Git::from_path("/p/my-repo".into()).with_config(&config);
    let worktrees = Worktrees::new(
        on_branch("/p/my-repo", "main"),
        vec![
            on_branch("/p/puppy", "puppy"),
            on_branch("/p/doggy", "doggy"),
            on_branch("/p/my-repo/silly", "silly"),
            on_branch("/p/my-repo/silly/cutie", "cutie"),
        ],
    );
    let mut given = inputs(worktrees, "/p/my-repo", local("main"));
    given.repo = "/p/my-repo/.git".into();
    let plan = ConvertPlan::new(git, given).unwrap();
    let moved = names(&plan);
    let at = |path: &str| moved.iter().position(|(moved, _)| moved == path).unwrap();
    assert_eq!(moved.len(), 5);
    assert!(at("/p/my-repo/silly/cutie") < at("/p/my-repo/silly"));
    assert!(at("/p/my-repo/silly") < at("/p/my-repo"));
    assert_eq!(
        moved,
        pairs(&[
            ("/p/my-repo/silly/cutie", "cutie"),
            ("/p/my-repo/silly", "silly"),
            ("/p/my-repo", "main"),
            ("/p/doggy", "doggy"),
            ("/p/puppy", "puppy"),
        ])
    );
}

#[test]
fn convert_no_op() {
    let config = ConfigFile::new();
    let git = Git::from_path("/work/my-repo".into()).with_config(&config);
    let worktrees = Worktrees::new(
        Worktree::new_bare("/work/my-repo/.git"),
        vec![
            on_branch("/work/my-repo/main", "main"),
            on_branch("/work/my-repo/puppy", "puppy"),
            detached("/work/my-repo/doggy"),
        ],
    );
    let plan = ConvertPlan::new(git, inputs(worktrees, "/work/my-repo", local("main"))).unwrap();
    assert!(plan.is_no_op());
    assert!(plan.make_bare().is_none());
    assert_eq!(plan.execute(), []);
    assert_eq!(plan.to_string(), "/work/my-repo is already a worktree repository");
    assert!(plan.to_string().contains("is already a worktree repository"));
}

#[test]
fn convert_bare_moves_worktrees_only() {
    let config = ConfigFile::new();
    let git = Git::from_path("/work/my-repo.git".into()).with_config(&config);
    let worktrees = Worktrees::new(
        Worktree::new_bare("/work/my-repo.git"),
        vec![on_branch("/work/main", "main"), detached("/work/doggy")],
    );
    let mut given = inputs(worktrees, "/work/my-repo", local("main"));
    given.repo = "/work/my-repo.git".into();
    let plan = ConvertPlan::new(git, given).unwrap();
    assert_eq!(plan.repo(), "/work");
    assert!(plan.make_bare().is_none());
    assert_eq!(
        show(&plan.execute()),
        [
            "mv /work/doggy /tmp/t/doggy",
            "mv /work/main /tmp/t/main",
            "mv /work/my-repo.git /tmp/t/.git",
            "mkdir -p /work/my-repo",
            "mv /tmp/t/doggy /work/my-repo/doggy",
            "mv /tmp/t/main /work/my-repo/main",
            "mv /tmp/t/.git /work/my-repo/.git",
            "cd /work/my-repo && git worktree repair /work/my-repo/doggy /work/my-repo/main /work/my-repo/.git",
        ]
    );
    assert_eq!(
        plan.to_string(),
        "Converting /work to a worktree repository at /work/my-repo.\n\
         I'll move the following worktrees to new locations:\n\
         • /work/doggy -> /work/my-repo/doggy\n\
         • /work/main -> /work/my-repo/main\n\
         • /work/my-repo.git -> /work/my-repo/.git"
    );
}

fn destination(worktrees: Worktrees, explicit: Option<&str>, common_parent: Option<&str>) -> Result<String, ConvertError> {
    ConvertPlan::destination_plan(
        &worktrees,
        explicit.map(String::from),
        common_parent.map(String::from),
    )
}

#[test]
fn convert_destination_explicit() {
    let worktrees = Worktrees::new(on_branch("/work/my-repo", "main"), Vec::new());
    assert_eq!(
        destination(worktrees, Some("/elsewhere/puppy"), Some("/work")),
        Ok("/elsewhere/puppy".to_owned())
    );
}

#[test]
fn convert_common_parent() {
    let several = || {
        Worktrees::new(
            on_branch("/my-prefix/my-repo", "main"),
            vec![on_branch("/my-prefix/puppy", "puppy"), on_branch("/my-prefix/doggy", "doggy")],
        )
    };
    assert_eq!(destination(several(), None, Some("/my-prefix")), Ok("/my-prefix".to_owned()));
    // The worktrees are not alone in their directory.
    assert_eq!(destination(several(), None, None), Ok("/my-prefix/my-repo".to_owned()));
    // A single worktree stays where it is.
    let single = Worktrees::new(on_branch("/my-prefix/my-repo", "main"), Vec::new());
    assert_eq!(destination(single, None, Some("/my-prefix")), Ok("/my-prefix/my-repo".to_owned()));
}

#[test]
fn convert_bare_dot_git() {
    let worktrees = Worktrees::new(
        Worktree::new_bare("/work/my-repo/.git"),
        vec![on_branch("/work/my-repo/main", "main")],
    );
    assert_eq!(destination(worktrees, None, Some("/x")), Ok("/work/my-repo".to_owned()));
    // Another name that begins with a dot is a name like any other.
    let worktrees = Worktrees::new(Worktree::new_bare("/work/my-repo/.bare"), Vec::new());
    assert_eq!(destination(worktrees, None, None), Ok("/work/my-repo/.bare".to_owned()));
    let worktrees = Worktrees::new(Worktree::new_bare("/work/.my-repo.git"), Vec::new());
    assert_eq!(destination(worktrees, None, None), Ok("/work/.my-repo".to_owned()));
}

#[test]
fn convert_bare_ends_with_dot_git() {
    let worktrees = Worktrees::new(
        Worktree::new_bare("/work/my-repo.git"),
        vec![on_branch("/work/main", "main")],
    );
    assert_eq!(destination(worktrees, None, None), Ok("/work/my-repo".to_owned()));
}

#[test]
fn convert_bare_no_dot() {
    let worktrees = Worktrees::new(
        Worktree::new_bare("/work/my-repo"),
        vec![on_branch("/work/main", "main")],
    );
    assert_eq!(destination(worktrees, None, None), Ok("/work/my-repo".to_owned()));
}

#[test]
fn convert_bare_without_name_or_parent() {
    let worktrees = Worktrees::new(Worktree::new_bare("/"), Vec::new());
    let error = destination(worktrees, None, None).unwrap_err();
    assert_eq!(error, ConvertError::GitDirHasNoBasename("/".into()));
    assert_eq!(error.to_string(), "Git directory has no basename: /");
    let worktrees = Worktrees::new(Worktree::new_bare("/.."), Vec::new());
    assert_eq!(
        destination(worktrees, None, None).unwrap_err(),
        ConvertError::GitDirHasNoBasename("/..".into())
    );
    assert_eq!(
        ConvertError::GitDirHasNoParent("x".into()).to_string(),
        "Git directory has no parent: x"
    );
}

#[test]
fn convert_explicit_default_branch() {
    assert_eq!(
        ConvertPlan::explicit_default_branch("a/a", Some(Ref::from_str("refs/remotes/a/a").unwrap())),
        Ok(remote("a", "a"))
    );
    assert_eq!(
        ConvertPlan::explicit_default_branch("main", Some(Ref::from_str("refs/heads/main").unwrap())),
        Ok(local("main"))
    );
    let error = ConvertPlan::explicit_default_branch("v1", Some(Ref::from_str("refs/tags/v1").unwrap()))
        .unwrap_err();
    assert_eq!(error, ConvertError::DefaultBranchNotABranch("v1".into()));
    assert_eq!(error.to_string(), "Ref is not a local or remote branch: v1");
}

#[test]
fn convert_explicit_default_branch_not_found() {
    let error = ConvertPlan::explicit_default_branch("d/a", None).unwrap_err();
    assert_eq!(error, ConvertError::DefaultBranchNotFound("d/a".into()));
    assert_eq!(error.to_string(), "`--default-branch` not found: d/a");
}

#[test]
fn convert_errors() {
    let config = ConfigFile::new();
    let plan = |given: ConvertInputs| {
        let git = Git::from_path("/work/my-repo".into()).with_config(&config);
        ConvertPlan::new(git, given).map(|plan| names(&plan))
    };
    let single = || Worktrees::new(on_branch("/work/my-repo", "main"), Vec::new());
    let mut given = inputs(single(), "/work/my-repo", local("main"));
    given.repo = "/".into();
    assert_eq!(plan(given).unwrap_err(), ConvertError::RepoHasNoParent("/".into()));
    assert_eq!(
        ConvertError::RepoHasNoParent("/".into()).to_string(),
        "Repository path has no parent: /"
    );
    let given = inputs(single(), "/", local("main"));
    assert_eq!(plan(given).unwrap_err(), ConvertError::DestinationHasNoBasename("/".into()));
    let relative = Worktrees::new(
        on_branch("/work/my-repo", "main"),
        vec![on_branch("puppy", "puppy"), on_branch("doggy", "doggy")],
    );
    let error = plan(inputs(relative, "/work/my-repo", local("main"))).unwrap_err();
    assert_eq!(error, ConvertError::RelativePath("puppy".into()));
    assert_eq!(error.to_string(), "Path is relative: puppy");
    // The linked worktree of the branch `main` stands in a directory named like the
    // destination, and the default branch `x/main` gets the name `main`.
    let taken = Worktrees::new(
        on_branch("/work/my-repo", "puppy"),
        vec![on_branch("/work/x/my-repo", "main")],
    );
    let error = plan(inputs(taken, "/work/my-repo", local("x/main"))).unwrap_err();
    assert_eq!(error, ConvertError::NoUniqueName("/work/x/my-repo".into()));
    assert_eq!(
        error.to_string(),
        "No unique name is left for the worktree at /work/x/my-repo"
    );
}

#[test]
fn convert_default_branch_shares_directory_name() {
    // The default branch `main` is not checked out and would get the directory
    // `main`, which is also what the checked out branch `feature/main` gives.
    let config = ConfigFile::new();
    let git = Git::from_path("/work/my-repo".into()).with_config(&config);
    let worktrees = Worktrees::new(on_branch("/work/my-repo", "feature/main"), Vec::new());
    let error = ConvertPlan::new(git, inputs(worktrees, "/work/my-repo", local("main"))).unwrap_err();
    assert_eq!(
        error,
        ConvertError::SharedDirectoryName {
            name: "main".into(),
            checked_out: "feature/main".into(),
            default_branch: "main".into(),
        }
    );
    assert_eq!(
        error.to_string(),
        "The default branch main and the checked out branch feature/main share the directory name main"
    );
}

#[test]
fn convert_default_branch_shares_directory_name_by_rule() {
    // The rules make one directory name of two branches.
    let mut config = ConfigFile::new();
    config.add.branch_replacements = vec![BranchReplacement::new("^v[0-9]+$", "release", None).unwrap()];
    let git = Git::from_path("/work/my-repo".into()).with_config(&config);
    let worktrees = Worktrees::new(on_branch("/work/my-repo", "v1"), Vec::new());
    let error = ConvertPlan::new(git, inputs(worktrees, "/work/my-repo", remote("origin", "v2"))).unwrap_err();
    assert_eq!(
        error,
        ConvertError::SharedDirectoryName {
            name: "release".into(),
            checked_out: "v1".into(),
            default_branch: "v2".into(),
        }
    );
}

#[test]
fn convert_same_directory_name_without_new_worktree() {
    // Both branches are checked out: nothing is created, and the second worktree
    // takes another name.
    let config = ConfigFile::new();
    let git = Git::from_path("/work/my-repo".into()).with_config(&config);
    let worktrees = Worktrees::new(
        on_branch("/work/my-repo", "feature/main"),
        vec![on_branch("/work/other", "main")],
    );
    let plan = ConvertPlan::new(git, inputs(worktrees, "/work/my-repo", local("main"))).unwrap();
    assert!(plan.new_worktrees().is_empty());
    let mut chosen = names(&plan);
    chosen.sort();
    assert_eq!(chosen.len(), 2);
    assert_ne!(chosen[0].1, chosen[1].1);
    assert_eq!(chosen[0].0, "/work/my-repo");
    assert_eq!(chosen[0].1, "main");
}

#[test]
fn convert_names_do_not_collide_with_new_worktree() {
    // The default branch `main` is not checked out, and gets the name `main`; the
    // linked worktree in the directory `main` gets another name.
    let config = ConfigFile::new();
    let git = Git::from_path("/work/puppy".into()).with_config(&config);
    let worktrees = Worktrees::new(
        on_branch("/work/puppy", "puppy"),
        vec![on_branch("/elsewhere/main", "doggy/main")],
    );
    let mut given = inputs(worktrees, "/work/repo", local("main"));
    given.repo = "/work/puppy/.git".into();
    let plan = ConvertPlan::new(git, given).unwrap();
    let mut chosen = names(&plan);
    chosen.sort();
    assert_eq!(
        chosen,
        pairs(&[("/elsewhere/main", "doggy-main"), ("/work/puppy", "puppy")])
    );
    assert_eq!(plan.new_worktrees()[0].name, "main");
}

#[test]
fn convert_with_branch_replacements() {
    let mut config = ConfigFile::new();
    config.add.branch_replacements = vec![BranchReplacement::new("^release/", "rel-", None).unwrap()];
    let git = Git::from_path("/work/my-repo".into()).with_config(&config);
    let worktrees = Worktrees::new(on_branch("/work/my-repo", "release/1.0"), Vec::new());
    let plan = ConvertPlan::new(git, inputs(worktrees, "/work/my-repo", local("release/2.0"))).unwrap();
    assert_eq!(names(&plan), pairs(&[("/work/my-repo", "rel-1.0")]));
    assert_eq!(plan.new_worktrees()[0].name, "rel-2.0");
}

#[test]
fn convert_common_parent_extra_files() {
    // Another file in the directory keeps it from being the destination.
    let paths: Vec<String> = ["/my-prefix/my-repo", "/my-prefix/puppy", "/my-prefix/doggy"]
        .map(String::from)
        .to_vec();
    let entries: Vec<String> = ["my-repo", "puppy", "doggy", "something-else"].map(String::from).to_vec();
    assert_eq!(git_prole::only_paths_in_parent_directory(&paths, &entries), None);
}

#[test]
fn convert_common_parent_extra_dotfiles() {
    // A dotfile in the directory does not.
    let paths: Vec<String> = ["/my-prefix/my-repo", "/my-prefix/puppy", "/my-prefix/doggy"]
        .map(String::from)
        .to_vec();
    let entries: Vec<String> = ["my-repo", "puppy", "doggy", ".my-config-file.toml"].map(String::from).to_vec();
    assert_eq!(
        git_prole::only_paths_in_parent_directory(&paths, &entries),
        Some("/my-prefix".to_owned())
    );
}

#[test]
fn convert_unstaged_changes() {
    // The main worktree is attached without a checkout, so its files stay as they
    // are, and moved as a whole.
    let config = ConfigFile::new();
    let git = Git::from_path("/work/my-repo".into()).with_config(&config);
    let worktrees = Worktrees::new(on_branch("/work/my-repo", "main"), Vec::new());
    let plan = ConvertPlan::new(git, inputs(worktrees, "/work/my-repo", local("main"))).unwrap();
    let steps = show(&plan.execute());
    assert!(steps.contains(&"mv /work/my-repo /tmp/t/main".to_owned()));
    assert!(steps.contains(&"mv /tmp/t/main /work/my-repo/main".to_owned()));
    assert_eq!(steps.iter().filter(|step| step.contains("worktree add")).count(), 1);
    assert!(steps.iter().all(|step| !step.contains("worktree add") || step.contains("--no-checkout")));
}

#[test]
fn convert_dry_run_runs_nothing() {
    let config = ConfigFile::new();
    let git = Git::from_path("/work/my-repo".into()).with_config(&config);
    let worktrees = Worktrees::new(on_branch("/work/my-repo", "main"), Vec::new());
    let plan = ConvertPlan::new(git, inputs(worktrees, "/work/my-repo", local("main"))).unwrap();
    assert!(!plan.is_no_op());
    assert_eq!(plan.steps_to_run(true), []);
    assert_eq!(plan.steps_to_run(false), plan.execute());
    assert_eq!(plan.steps_to_run(false).len(), 11);
}
