use git_prole::git::worktree::resolve_unique_worktree_names;
use git_prole::BranchReplacement;
use git_prole::CommitHash;
use git_prole::LocalBranchRef;
use git_prole::ResolveUniqueNameOpts;
use git_prole::Worktree;
use git_prole::Worktrees;

/// Resolves the names of `worktrees`, of which the first is the main worktree, in
/// their order, and shows them sorted by path.
fn resolve(
    worktrees: Vec<Worktree>,
    names: &[&str],
    directory_names: &[&str],
) -> String {
    let mut linked = worktrees;
    let main = linked.remove(0);

    let mut resolved = resolve_unique_worktree_names(
        &Vec::new(),
        ResolveUniqueNameOpts {
            worktrees: Worktrees::new(main, linked),
            names: names.iter().map(|name| name.to_string()).collect(),
            directory_names: directory_names.iter().map(|name| name.to_string()).collect(),
        },
    )
    .unwrap()
    .into_iter()
    .map(|renamed| (renamed.worktree.path, renamed.name))
    .collect::<Vec<_>>();

    resolved.sort_by_key(|(path, _name)| path.clone());

    let mut formatted = resolved
        .iter()
        .map(|(path, name)| format!("{path} -> {name}"))
        .collect::<Vec<_>>()
        .join("\n");

    if resolved.len() > 1 {
        formatted.push('\n');
    }

    formatted
}

fn branch(path: &str, name: &str) -> Worktree {
    Worktree::new_branch(path, CommitHash::fake(), LocalBranchRef::from(name))
}

fn detached(path: &str) -> Worktree {
    Worktree::new_detached(path, CommitHash::fake())
}

#[test]
fn test_resolve_unique_names_branch_last_component() {
    assert_eq!(
        resolve(vec![branch("/softy", "doggy/puppy")], &[], &[]),
        "/softy -> puppy"
    );
}

#[test]
fn test_resolve_unique_names_branch_full() {
    assert_eq!(
        resolve(vec![branch("/softy", "doggy/puppy")], &["puppy"], &[]),
        "/softy -> doggy-puppy"
    );
}

#[test]
fn test_resolve_unique_names_bare_git_dir() {
    assert_eq!(
        resolve(vec![Worktree::new_bare("/puppy")], &[], &[]),
        "/puppy -> .git"
    );
}

#[test]
fn test_resolve_unique_names_directory_name() {
    assert_eq!(resolve(vec![detached("/puppy")], &[], &[]), "/puppy -> puppy");
}

#[test]
fn test_resolve_unique_names_directory_name_numbers() {
    assert_eq!(
        resolve(vec![detached("/puppy")], &["puppy"], &[]),
        "/puppy -> puppy-2"
    );
}

#[test]
fn test_resolve_unique_names_directory_name_skips_directory_names() {
    assert_eq!(
        resolve(vec![detached("/puppy")], &[], &["puppy"]),
        "/puppy -> work"
    );
}

#[test]
fn test_resolve_unique_names_detached_work_numbers() {
    assert_eq!(
        resolve(vec![detached("/puppy")], &["work"], &["puppy"]),
        "/puppy -> work-2"
    );
}

#[test]
fn test_resolve_unique_names_many() {
    assert_eq!(
        resolve(
            // The linked worktrees stand in the order in which they are named.
            vec![
                Worktree::new_bare("/puppy.git"),
                branch("/e/c", "puppy/doggy"),
                branch("/a", "puppy/doggy"),
                branch("/b", "puppy/doggy"),
                branch("/c", "puppy/doggy"),
                branch("/f/c", "puppy/doggy"),
                branch("/d/c", "puppy/doggy"),
                detached("/puppy"),
                detached("/silly/puppy"),
                detached("/my-repo"),
                detached("/silly/my-repo"),
            ],
            &["main"],
            &["my-repo"],
        ),
        "/a -> puppy-doggy
/b -> b
/c -> c
/d/c -> c-3
/e/c -> doggy
/f/c -> c-2
/my-repo -> work
/puppy -> puppy
/puppy.git -> .git
/silly/my-repo -> work-2
/silly/puppy -> puppy-2
"
    );
}

fn names_in_order(worktrees: Worktrees, names: &[&str], directory_names: &[&str]) -> Vec<String> {
    resolve_unique_worktree_names(
        &Vec::new(),
        ResolveUniqueNameOpts {
            worktrees,
            names: names.iter().map(|name| name.to_string()).collect(),
            directory_names: directory_names.iter().map(|name| name.to_string()).collect(),
        },
    )
    .unwrap()
    .into_iter()
    .map(|renamed| renamed.name)
    .collect()
}

#[test]
fn test_resolve_unique_names_in_order() {
    // The worktrees are named in their order: who comes first gets the short name.
    let worktrees = Worktrees::new(
        branch("/x/main", "main"),
        vec![
            branch("/a", "puppy/doggy"),
            branch("/b", "silly/doggy"),
            branch("/c", "doggy"),
            detached("/d/doggy"),
            detached("/e/doggy"),
            detached("/f/doggy"),
        ],
    );
    assert_eq!(
        names_in_order(worktrees, &[], &[]),
        ["main", "doggy", "silly-doggy", "c", "doggy-2", "doggy-3", "doggy-4"]
    );
}

#[test]
fn test_resolve_unique_names_are_distinct_and_not_reserved() {
    let worktrees = Worktrees::new(
        Worktree::new_bare("/repo/.git"),
        (0..30).map(|n| detached(&format!("/{n}/work"))).collect(),
    );
    let reserved = ["work", "work-2", "work-4", "main"];
    let names = names_in_order(worktrees, &reserved, &[]);
    assert_eq!(names.len(), 31);
    assert_eq!(names[0], ".git");
    assert_eq!(&names[1..4], ["work-3", "work-5", "work-6"]);
    assert_eq!(names[30], "work-33");
    for (at, name) in names.iter().enumerate() {
        assert!(!reserved.contains(&name.as_str()));
        assert!(!names[..at].contains(name));
    }
}

#[test]
fn test_resolve_unique_names_git_is_reserved() {
    // Nothing but a bare main worktree is named `.git`.
    let worktrees = Worktrees::new(
        branch("/repo", "main"),
        vec![detached("/x/.git"), branch("/y", ".git")],
    );
    assert_eq!(names_in_order(worktrees, &[], &[]), ["main", ".git-2", "y"]);
}

#[test]
fn test_resolve_unique_names_runs_out() {
    // On a branch, with a directory name that is excluded, and both branch names taken.
    let worktrees = Worktrees::new(
        Worktree::new_bare("/repo/.git"),
        vec![detached("/ok"), branch("/my-repo", "puppy/doggy")],
    );
    let error = resolve_unique_worktree_names(
        &Vec::new(),
        ResolveUniqueNameOpts {
            worktrees,
            names: vec!["doggy".into(), "puppy-doggy".into()],
            directory_names: vec!["my-repo".into()],
        },
    )
    .unwrap_err();
    assert_eq!(error.path, "/my-repo");
    assert_eq!(
        error.to_string(),
        "No unique name is left for the worktree at /my-repo"
    );
}

#[test]
fn test_resolve_unique_names_with_replacements() {
    let rules = vec![
        BranchReplacement::new("^[a-z]+/", "", None).unwrap(),
        BranchReplacement::new("o", "0", Some(1)).unwrap(),
    ];
    let names = resolve_unique_worktree_names(
        &rules,
        ResolveUniqueNameOpts {
            worktrees: Worktrees::new(
                branch("/a", "puppy/doggo/foo"),
                vec![branch("/b", "puppy/doggo/foo")],
            ),
            names: Vec::new(),
            directory_names: Vec::new(),
        },
    )
    .unwrap()
    .into_iter()
    .map(|renamed| renamed.name)
    .collect::<Vec<_>>();
    assert_eq!(names, ["foo", "puppy-doggo-foo"]);
}
