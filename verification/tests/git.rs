use std::str::FromStr;

use git_prole::git::config::ConfigError;
use git_prole::git::path::PathError;
use git_prole::git::PreferredStep;
use git_prole::git::RemoteError;
use git_prole::AddWorktreeOpts;
use git_prole::BranchRef;
use git_prole::BranchReplacement;
use git_prole::CommitHash;
use git_prole::ConfigFile;
use git_prole::Git;
use git_prole::GitBranch;
use git_prole::GitConfig;
use git_prole::GitPath;
use git_prole::GitRefs;
use git_prole::GitRemote;
use git_prole::GitStatus;
use git_prole::GitWorktree;
use git_prole::HeadKind;
use git_prole::LocalBranchRef;
use git_prole::Ref;
use git_prole::RemoteBranchRef;
use git_prole::ResolvedCommitish;
use git_prole::Worktree;
use git_prole::Worktrees;

fn strings(items: &[&str]) -> Vec<String> {
    items.iter().map(|item| item.to_string()).collect()
}

fn refs(items: &[&str]) -> Vec<Ref> {
    items.iter().map(|item| Ref::from_str(item).unwrap()).collect()
}

#[test]
fn test_git_command() {
    let mut git = Git::from_path("/repo".into());
    assert_eq!(git.get_current_dir(), "/repo");
    assert_eq!(git.command().program(), "git");
    assert_eq!(git.command().args, Vec::<String>::new());
    git.arg("--no-pager".into());
    git.args(strings(&["-c", "core.pager=cat"]));
    git.env("GIT_PAGER".into(), "cat".into());
    git.envs(vec![("A".into(), "1".into()), ("B".into(), "2".into())]);
    let command = git.command();
    assert_eq!(command.current_dir, "/repo");
    assert_eq!(command.args, ["--no-pager", "-c", "core.pager=cat"]);
    assert_eq!(
        command.envs,
        [
            ("GIT_PAGER".to_owned(), "cat".to_owned()),
            ("A".to_owned(), "1".to_owned()),
            ("B".to_owned(), "2".to_owned())
        ]
    );
    let elsewhere = git.with_current_dir("/other".into());
    assert_eq!(elsewhere.command().current_dir, "/other");
    assert_eq!(elsewhere.command().args, command.args);
    assert_eq!(elsewhere.command().envs, command.envs);
    assert_eq!(git.get_current_dir(), "/repo");
    git.set_current_dir("/third".into());
    assert_eq!(git.command().current_dir, "/third");
    assert_eq!(
        git.rev_parse_command().args,
        ["--no-pager", "-c", "core.pager=cat", "rev-parse", "--path-format=absolute"]
    );
    assert_eq!(git.reset().args[3..], ["reset"]);
    assert_eq!(
        git.clone_repository("url", Some("dest"), &strings(&["--depth", "1"])).args[3..],
        ["clone", "--depth", "1", "url", "dest"]
    );
    assert_eq!(git.clone_repository("url", None, &Vec::new()).args[3..], ["clone", "url"]);
    assert_eq!(git.clone(), git);
    assert_eq!(Git::new().get_current_dir(), ".");
    let config = ConfigFile::new();
    let app = Git::from_path("/a".into()).with_config(&config);
    assert_eq!(app.with_current_dir("/b".into()).git.get_current_dir(), "/b");
    assert_eq!(
        command.arg("x").current_dir("/y").args(&strings(&["z"])).args[3..],
        ["x", "z"]
    );
}

#[test]
fn test_worktree_commands() {
    let config = ConfigFile::new();
    let app = Git::from_path("/repo/main".into()).with_config(&config);
    let worktree = GitWorktree::new(&app);
    assert_eq!(worktree.list().args, ["worktree", "list", "--porcelain", "-z"]);
    assert_eq!(
        worktree.is_inside().args,
        ["rev-parse", "--path-format=absolute", "--is-inside-work-tree"]
    );
    assert_eq!(
        worktree.root().args,
        ["rev-parse", "--path-format=absolute", "--show-toplevel"]
    );
    let rename = worktree.rename("/repo/a", "/repo/b");
    assert_eq!(rename.args, ["worktree", "move", "/repo/a", "/repo/b"]);
    assert_eq!(rename.current_dir, "/repo/a");
    assert_eq!(
        worktree.repair(&strings(&["/repo/a", "/repo/b"])).args,
        ["worktree", "repair", "/repo/a", "/repo/b"]
    );
    assert_eq!(worktree.repair(&Vec::new()).args, ["worktree", "repair"]);
    assert_eq!(GitWorktree::parse_is_inside("true\n"), Some(true));
    assert_eq!(GitWorktree::parse_is_inside(" false "), Some(false));
    assert_eq!(GitWorktree::parse_is_inside("yes"), None);
    assert_eq!(GitWorktree::parse_is_inside(""), None);
    assert_eq!(worktree.container(&Worktree::new_bare("/repo/.git")), Some("/repo".to_owned()));
    assert_eq!(worktree.container(&Worktree::new_bare("/")), None);
    assert_eq!(worktree.dirname_for("puppy/doggy"), "doggy");
    assert_eq!(worktree.dirname_for("main"), "main");
    assert_eq!(worktree.path_for("/repo", "puppy/doggy"), "/repo/doggy");
}

#[test]
fn test_worktree_add_command() {
    let config = ConfigFile::new();
    let app = Git::from_path("/repo/main".into()).with_config(&config);
    let worktree = GitWorktree::new(&app);
    assert_eq!(
        worktree.add_command("/repo/x", &AddWorktreeOpts::default()).args,
        ["worktree", "add", "/repo/x"]
    );
    let branch = LocalBranchRef::from("puppy");
    let everything = AddWorktreeOpts {
        force_branch: true,
        create_branch: Some(&branch),
        checkout: false,
        guess_remote: true,
        track: true,
        start_point: Some("origin/puppy"),
        detach: true,
    };
    assert_eq!(
        worktree.add_command("/repo/x", &everything).args,
        [
            "worktree",
            "add",
            "--detach",
            "-B",
            "puppy",
            "--no-checkout",
            "--guess-remote",
            "--track",
            "/repo/x",
            "origin/puppy"
        ]
    );
    let create = AddWorktreeOpts { create_branch: Some(&branch), ..Default::default() };
    assert_eq!(
        worktree.add("/repo/x", &create).args,
        ["worktree", "add", "-b", "puppy", "/repo/x"]
    );
    // Forcing without a branch to create does nothing.
    let forced = AddWorktreeOpts { force_branch: true, ..Default::default() };
    assert_eq!(worktree.add("/repo/x", &forced).args, ["worktree", "add", "/repo/x"]);
}

#[test]
fn test_dirname_for_with_replacements() {
    let mut config = ConfigFile::new();
    config.add.branch_replacements = vec![
        BranchReplacement::new(r"\w+/", "", Some(1)).unwrap(),
        BranchReplacement::new("/", "-", None).unwrap(),
        BranchReplacement::new("(?<a>x)(?<b>y)", "$b$a", Some(0)).unwrap(),
    ];
    let app = Git::from_path("/repo/main".into()).with_config(&config);
    let worktree = GitWorktree::new(&app);
    assert_eq!(worktree.dirname_for("puppy/doggy/silly/cutie"), "doggy-silly-cutie");
    assert_eq!(worktree.dirname_for("xyxy"), "yxyx");
    assert_eq!(worktree.path_for("/repo", "a/b/c"), "/repo/b-c");
    assert!(BranchReplacement::new("(", "", None).is_none());
    let rule = BranchReplacement::new("a+", "b", Some(2)).unwrap();
    assert_eq!(rule.find(), "a+");
    assert_eq!(rule.replace(), "b");
    assert_eq!(rule.count(), Some(2));
    assert_eq!(rule.apply("aa-a-aaa"), "b-b-aaa");
    assert_eq!(BranchReplacement::new("a+", "b", None).unwrap().apply("aa-a-aaa"), "b-b-b");
    assert_eq!(rule, BranchReplacement::new("a+", "b", None).unwrap());
    assert_eq!(rule.clone(), rule);
}

#[test]
fn test_find_some() {
    let config = ConfigFile::new();
    let app = Git::from_path("/repo".into()).with_config(&config);
    let worktree = GitWorktree::new(&app);
    let branch = |path: &str, name: &str| {
        Worktree::new_branch(path, CommitHash::fake(), LocalBranchRef::from(name))
    };
    let worktrees = Worktrees::new(
        Worktree::new_bare("/repo/.git"),
        vec![branch("/repo/puppy", "puppy"), branch("/repo/main", "main")],
    );
    let main = BranchRef::Remote(RemoteBranchRef::new("origin", "main"));
    let doggy = BranchRef::Local(LocalBranchRef::from("doggy"));
    // The worktree of the preferred branch.
    assert_eq!(worktree.find_some(&worktrees, Some(&main)), "/repo/main");
    assert_eq!(
        worktree.preferred_branch(Some(&main), &worktrees),
        Some(branch("/repo/main", "main"))
    );
    // No worktree for the preferred branch: any worktree that is not bare.
    assert_eq!(worktree.find_some(&worktrees, Some(&doggy)), "/repo/puppy");
    assert_eq!(worktree.find_some(&worktrees, None), "/repo/puppy");
    assert_eq!(worktree.preferred_branch(Some(&doggy), &worktrees), None);
    assert_eq!(worktree.preferred_branch(None, &worktrees), None);
    // Only a bare worktree.
    let bare = Worktrees::new(Worktree::new_bare("/repo/.git"), Vec::new());
    assert_eq!(worktree.find_some(&bare, Some(&main)), "/repo/.git");
    // A main worktree that is not bare.
    let plain = Worktrees::new(branch("/repo", "puppy"), vec![branch("/other", "doggy")]);
    assert_eq!(worktree.find_some(&plain, Some(&main)), "/repo");
    assert_eq!(worktree.find_some(&plain, Some(&doggy)), "/other");
}

#[test]
fn test_refs_commands_and_answers() {
    let git = Git::from_path("/repo".into());
    let refs_of = GitRefs::new(&git);
    assert_eq!(
        refs_of.commit_message("HEAD").args,
        ["show", "--no-patch", "--format=%B", "HEAD"]
    );
    assert_eq!(
        refs_of.get_head().args,
        ["rev-parse", "--path-format=absolute", "--verify", "--quiet", "--end-of-options", "HEAD"]
    );
    assert_eq!(refs_of.parse("x").args[5], "x");
    assert_eq!(
        refs_of.rev_parse_symbolic_full_name("@").args,
        [
            "rev-parse",
            "--path-format=absolute",
            "--symbolic-full-name",
            "--verify",
            "--quiet",
            "--end-of-options",
            "@"
        ]
    );
    assert_eq!(refs_of.is_head_detached().args, ["symbolic-ref", "--quiet", "HEAD"]);
    assert_eq!(refs_of.for_each_ref(None).args, ["for-each-ref", "--format=%(refname)"]);
    assert_eq!(
        refs_of.for_each_ref(Some(&strings(&["refs/heads/**"]))).args,
        ["for-each-ref", "--format=%(refname)", "refs/heads/**"]
    );

    let hash = "4023d08019c45f462a9469778e78c3a1faad5013";
    assert_eq!(
        GitRefs::parse_commit(true, &format!("{hash}\n")),
        Some(CommitHash::new(hash.into()))
    );
    assert_eq!(GitRefs::parse_commit(false, hash), None);

    let main = Ref::from_str("refs/heads/main").unwrap();
    assert_eq!(
        GitRefs::symbolic_full_name("main", true, "refs/heads/main\n"),
        Ok(Some(main.clone()))
    );
    assert_eq!(GitRefs::symbolic_full_name("main", false, "refs/heads/main\n"), Ok(None));
    assert_eq!(GitRefs::symbolic_full_name("4023d080", true, "\n"), Ok(None));
    // A detached `HEAD` is printed back.
    assert_eq!(GitRefs::symbolic_full_name("HEAD", true, "HEAD\n"), Ok(None));
    assert_eq!(GitRefs::symbolic_full_name("FETCH_HEAD", true, "FETCH_HEAD"), Ok(None));
    assert_eq!(GitRefs::symbolic_full_name("HEAD", true, "ORIG_HEAD").unwrap_err().offset, 0);
    assert_eq!(GitRefs::symbolic_full_name("main", true, "main").unwrap_err().offset, 0);

    assert_eq!(
        GitRefs::resolve_commitish(Some(main.clone()), Some(CommitHash::fake())),
        Some(ResolvedCommitish::Ref(main.clone()))
    );
    assert_eq!(
        GitRefs::resolve_commitish(None, Some(CommitHash::fake())),
        Some(ResolvedCommitish::Commit(CommitHash::fake()))
    );
    assert_eq!(GitRefs::resolve_commitish(None, None), None);

    assert_eq!(
        GitRefs::head_kind(true, Some(CommitHash::fake()), None),
        Some(HeadKind::Detached(CommitHash::fake()))
    );
    assert_eq!(
        GitRefs::head_kind(false, None, Some(main.clone())),
        Some(HeadKind::Branch(LocalBranchRef::from("main")))
    );
    assert_eq!(GitRefs::head_kind(false, Some(CommitHash::fake()), None), None);
    assert_eq!(
        GitRefs::head_kind(false, None, Some(Ref::from_str("refs/tags/v1").unwrap())),
        None
    );

    assert_eq!(
        GitRefs::parse_refs("refs/heads/main\nrefs/remotes/origin/main\nrefs/tags/v1\n"),
        Ok(refs(&["refs/heads/main", "refs/remotes/origin/main", "refs/tags/v1"]))
    );
    assert_eq!(GitRefs::parse_refs(""), Ok(Vec::new()));
    assert_eq!(GitRefs::parse_refs("refs/heads/main\nHEAD\nrefs/x/y").unwrap_err().offset, 0);
    assert_eq!(GitRefs::parse_refs("refs/heads/main\nrefs/x\n???").unwrap_err().offset, 6);
}

#[test]
fn test_branch_commands_and_answers() {
    let git = Git::from_path("/repo".into());
    let branch = GitBranch::new(&git);
    assert_eq!(
        branch.list_local().args,
        ["for-each-ref", "--format=%(refname)", "refs/heads/**"]
    );
    assert_eq!(
        branch.list().args,
        ["for-each-ref", "--format=%(refname)", "refs/heads/**", "refs/remotes/**"]
    );
    assert_eq!(
        branch.exists_local("puppy").args,
        ["show-ref", "--quiet", "--branches", "puppy"]
    );
    assert_eq!(
        GitBranch::local_branches(refs(&["refs/heads/a", "refs/heads/b/c"])),
        Ok(vec![LocalBranchRef::from("a"), LocalBranchRef::from("b/c")])
    );
    assert_eq!(
        GitBranch::local_branches(refs(&["refs/heads/a", "refs/tags/b", "refs/tags/c"])),
        Err(Ref::from_str("refs/tags/b").unwrap())
    );
    assert_eq!(
        GitBranch::branches(refs(&["refs/heads/a", "refs/remotes/o/b"])),
        Ok(vec![
            BranchRef::Local(LocalBranchRef::from("a")),
            BranchRef::Remote(RemoteBranchRef::new("o", "b"))
        ])
    );
    assert_eq!(
        GitBranch::branches(refs(&["refs/heads/a", "refs/remotes/o"])),
        Err(Ref::from_str("refs/remotes/o").unwrap())
    );
    let tracking = RemoteBranchRef::new("origin", "puppy");
    assert_eq!(
        GitBranch::local_or_remote("puppy", true, Some(tracking.clone())),
        Some(BranchRef::Local(LocalBranchRef::from("puppy")))
    );
    assert_eq!(
        GitBranch::local_or_remote("puppy", false, Some(tracking.clone())),
        Some(BranchRef::Remote(tracking.clone()))
    );
    assert_eq!(GitBranch::local_or_remote("puppy", false, None), None);
    assert_eq!(
        GitBranch::current(Some(Ref::from_str("refs/heads/main").unwrap())),
        Ok(Some(LocalBranchRef::from("main")))
    );
    assert_eq!(GitBranch::current(None), Ok(None));
    assert!(GitBranch::current(Some(Ref::from_str("refs/tags/v1").unwrap())).is_err());
    assert_eq!(GitBranch::upstream_name("puppy"), "puppy@{upstream}");
    assert_eq!(
        GitBranch::upstream(Some(Ref::from_str("refs/remotes/origin/puppy").unwrap())),
        Ok(Some(BranchRef::Remote(tracking.clone())))
    );
    assert_eq!(GitBranch::upstream(None), Ok(None));
    assert!(GitBranch::upstream(Some(Ref::from_str("refs/tags/v1").unwrap())).is_err());
}

#[test]
fn test_preferred_branch_search() {
    let names = strings(&["main", "master", "trunk"]);
    let locals = vec![LocalBranchRef::from("puppy"), LocalBranchRef::from("master")];
    // `main` is no local branch: is it on a remote?
    assert_eq!(
        GitBranch::preferred(&names, &locals, &Vec::new()),
        PreferredStep::Ask("main".into())
    );
    // It is not; `master` is a local branch.
    assert_eq!(
        GitBranch::preferred(&names, &locals, &vec![None]),
        PreferredStep::Found(Some(BranchRef::Local(LocalBranchRef::from("master"))))
    );
    // It is.
    assert_eq!(
        GitBranch::preferred(&names, &locals, &vec![Some(RemoteBranchRef::new("origin", "main"))]),
        PreferredStep::Found(Some(BranchRef::Remote(RemoteBranchRef::new("origin", "main"))))
    );
    // A local branch wins over the remote branch of the same name.
    assert_eq!(
        GitBranch::preferred(
            &strings(&["master"]),
            &locals,
            &vec![Some(RemoteBranchRef::new("origin", "master"))]
        ),
        PreferredStep::Found(Some(BranchRef::Local(LocalBranchRef::from("master"))))
    );
    // Nothing is found.
    let none = vec![LocalBranchRef::from("puppy")];
    assert_eq!(
        GitBranch::preferred(&names, &none, &vec![None, None]),
        PreferredStep::Ask("trunk".into())
    );
    assert_eq!(
        GitBranch::preferred(&names, &none, &vec![None, None, None]),
        PreferredStep::Found(None)
    );
    assert_eq!(GitBranch::preferred(&Vec::new(), &none, &Vec::new()), PreferredStep::Found(None));
}

#[test]
fn test_remote_commands_and_answers() {
    let git = Git::from_path("/repo".into());
    let remote = GitRemote::new(&git);
    assert_eq!(remote.list().args, ["remote"]);
    assert_eq!(GitRemote::parse_list("origin\nupstream\n"), ["origin", "upstream"]);
    assert_eq!(GitRemote::parse_list(""), Vec::<String>::new());
    assert_eq!(remote.get_push_url("origin").args, ["remote", "get-url", "--push", "origin"]);
    assert_eq!(
        remote.default_branch_symbolic_ref("origin").args,
        ["symbolic-ref", "refs/remotes/origin/HEAD"]
    );
    assert_eq!(
        remote.default_branch_ls_remote("origin").args,
        ["ls-remote", "--symref", "origin", "HEAD"]
    );
    assert_eq!(
        remote.get_default().args,
        ["config", "--get", "--null", "checkout.defaultRemote"]
    );
    assert_eq!(
        remote.for_branch("puppy").args,
        ["for-each-ref", "--format=%(refname)", "refs/remotes/*/puppy"]
    );
    assert_eq!(remote.fetch("origin", None).args, ["fetch", "origin"]);
    assert_eq!(
        remote.fetch("origin", Some("refs/heads/a:refs/remotes/origin/a")).args,
        ["fetch", "origin", "refs/heads/a:refs/remotes/origin/a"]
    );
    let main = RemoteBranchRef::new("origin", "main");
    assert_eq!(
        remote.store_default_branch("origin", &main).args,
        ["symbolic-ref", "refs/remotes/origin/HEAD", "refs/remotes/origin/origin/main"]
    );
    assert_eq!(GitRemote::parse_symbolic_ref("refs/remotes/origin/main\n"), Ok(main.clone()));
    assert_eq!(
        GitRemote::parse_symbolic_ref("refs/heads/main\n"),
        Err(RemoteError::NotABranch(Ref::from_str("refs/heads/main").unwrap()))
    );
    assert!(matches!(
        GitRemote::parse_symbolic_ref("origin/main\n"),
        Err(RemoteError::Parse(error)) if error.offset == 0
    ));
    assert_eq!(
        GitRemote::parse_ls_remote("origin", "ref: refs/heads/main\tHEAD\n4023d080\tHEAD\n"),
        Ok(main.clone())
    );
    assert_eq!(
        GitRemote::parse_ls_remote("origin", "ref: refs/tags/v1\tHEAD\n"),
        Err(RemoteError::NotABranch(Ref::from_str("refs/tags/v1").unwrap()))
    );
    assert!(matches!(
        GitRemote::parse_ls_remote("origin", "4023d080\tHEAD\n"),
        Err(RemoteError::Parse(error)) if error.offset == 0
    ));
}

#[test]
fn test_unique_remote_branch() {
    let puppy = |remote: &str| RemoteBranchRef::new(remote, "puppy");
    assert_eq!(GitRemote::unique_for_branch(Vec::new(), Some("origin")), None);
    assert_eq!(
        GitRemote::unique_for_branch(refs(&["refs/remotes/fork/puppy"]), Some("origin")),
        Some(puppy("fork"))
    );
    assert_eq!(GitRemote::unique_for_branch(refs(&["refs/heads/puppy"]), None), None);
    let both = || refs(&["refs/remotes/fork/puppy", "refs/remotes/origin/puppy"]);
    assert_eq!(GitRemote::unique_for_branch(both(), None), None);
    assert_eq!(GitRemote::unique_for_branch(both(), Some("origin")), Some(puppy("origin")));
    assert_eq!(GitRemote::unique_for_branch(both(), Some("fork")), Some(puppy("fork")));
    assert_eq!(GitRemote::unique_for_branch(both(), Some("upstream")), None);
}

#[test]
fn test_preferred_remotes() {
    let all = strings(&["fork", "origin", "upstream", "origin"]);
    let preferred = strings(&["upstream", "origin", "missing", "upstream"]);
    assert_eq!(
        GitRemote::list_preferred(&all, None, &preferred),
        ["upstream", "origin"]
    );
    assert_eq!(
        GitRemote::list_preferred(&all, Some("fork"), &preferred),
        ["fork", "upstream", "origin"]
    );
    assert_eq!(
        GitRemote::list_preferred(&all, Some("origin"), &preferred),
        ["origin", "upstream"]
    );
    assert_eq!(
        GitRemote::list_preferred(&all, Some("nowhere"), &preferred),
        ["upstream", "origin"]
    );
    assert_eq!(GitRemote::preferred(&all, None, &preferred), Some("upstream".to_owned()));
    assert_eq!(GitRemote::preferred(&strings(&["fork"]), None, &preferred), None);
    assert_eq!(GitRemote::preferred(&Vec::new(), Some("origin"), &preferred), None);
}

#[test]
fn test_config_commands_and_answers() {
    let git = Git::from_path("/repo".into());
    let config = GitConfig::new(&git);
    assert_eq!(config.get("core.bare").args, ["config", "--get", "--null", "core.bare"]);
    assert_eq!(
        config.set("core.bare", "true").args,
        ["config", "set", "core.bare", "true"]
    );
    assert_eq!(GitConfig::get_and(true, Some(0), "origin\0"), Ok(Some("origin".to_owned())));
    assert_eq!(GitConfig::get_and(true, Some(0), "a\0b\0"), Ok(Some("a".to_owned())));
    assert_eq!(GitConfig::get_and(true, Some(0), "\0"), Ok(Some(String::new())));
    assert_eq!(GitConfig::get_and(true, Some(0), "origin\n"), Err(ConfigError::NoNull));
    assert_eq!(GitConfig::get_and(false, Some(1), "origin\0"), Ok(None));
    assert_eq!(GitConfig::get_and(false, Some(2), ""), Err(ConfigError::Failed));
    assert_eq!(GitConfig::get_and(false, None, ""), Err(ConfigError::Failed));
    assert_eq!(GitConfig::is_bare(Some("true")), Ok(true));
    assert_eq!(GitConfig::is_bare(Some("false")), Ok(false));
    assert_eq!(GitConfig::is_bare(None), Ok(false));
    assert_eq!(GitConfig::is_bare(Some("yes")), Err(ConfigError::UnexpectedValue));
    assert_eq!(ConfigError::NoNull.to_string(), "Output didn't contain any null bytes");
    assert_eq!(
        ConfigError::UnexpectedValue.to_string(),
        "Unexpected Git config value for `core.bare`"
    );
    assert_eq!(ConfigError::Failed.to_string(), "`git config` failed");
}

#[test]
fn test_path_commands_and_answers() {
    let git = Git::from_path("/somewhere".into());
    let path = GitPath::new(&git);
    assert_eq!(
        path.get_git_dir().args,
        ["rev-parse", "--path-format=absolute", "--git-dir"]
    );
    assert_eq!(
        path.git_common_dir().args,
        ["rev-parse", "--path-format=absolute", "--git-common-dir"]
    );
    assert_eq!(GitPath::parse_path("/repo/.git\n"), "/repo/.git");
    assert_eq!(
        path.repo_root_display(Some("/repo/main".into()), false, "/repo/.git".into()),
        Ok("/repo/main".to_owned())
    );
    assert_eq!(path.repo_root_display(None, true, "/repo/.git".into()), Ok("/repo".to_owned()));
    assert_eq!(
        path.repo_root_display(None, true, "/repo/my-repo.git".into()),
        Ok("/repo/my-repo.git".to_owned())
    );
    let error = path.repo_root_display(None, false, "/repo/.git".into()).unwrap_err();
    assert_eq!(error, PathError::NotInRepository("/somewhere".into()));
    assert_eq!(
        error.to_string(),
        "Path is not in a working tree or a bare repository: /somewhere"
    );
    assert_eq!(
        path.repo_root_display(None, true, "/".into()),
        Err(PathError::GitDirHasNoBasename("/".into()))
    );
    assert_eq!(
        PathError::GitDirHasNoParent(".git".into()).to_string(),
        "Git directory has no parent: .git"
    );
    assert_eq!(
        GitStatus::new(&git).get().args,
        ["status", "--porcelain=v1", "--ignored=traditional", "-z"]
    );
}
