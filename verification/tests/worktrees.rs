use std::str::FromStr;

use git_prole::CommitHash;
use git_prole::LocalBranchRef;
use git_prole::Worktree;
use git_prole::WorktreeHead;
use git_prole::Worktrees;

fn listing() -> String {
    "worktree /path/to/bare-source
bare

worktree /Users/wiggles/cabal/accept
HEAD 0685cb3fec8b7144f865638cfd16768e15125fc2
branch refs/heads/rebeccat/fix-accept-flag

worktree /Users/wiggles/lix
HEAD 0d484aa498b3c839991d11afb31bc5fcf368493d
detached

worktree /path/to/linked-worktree-locked-no-reason
HEAD 5678abc5678abc5678abc5678abc5678abc5678c
branch refs/heads/locked-no-reason
locked

worktree /path/to/linked-worktree-locked-with-reason
HEAD 3456def3456def3456def3456def3456def3456b
branch refs/heads/locked-with-reason
locked reason why is locked

worktree /path/to/linked-worktree-prunable
HEAD 1233def1234def1234def1234def1234def1234b
detached
prunable gitdir file points to non-existent location

"
    .replace('\n', "\0")
}

fn hash(text: &str) -> CommitHash {
    CommitHash::new(text.into())
}

fn expected_sorted() -> Vec<Worktree> {
    vec![
        Worktree::new_branch(
            "/Users/wiggles/cabal/accept",
            hash("0685cb3fec8b7144f865638cfd16768e15125fc2"),
            LocalBranchRef::from("rebeccat/fix-accept-flag"),
        ),
        Worktree::new_detached(
            "/Users/wiggles/lix",
            hash("0d484aa498b3c839991d11afb31bc5fcf368493d"),
        ),
        Worktree::new_bare("/path/to/bare-source"),
        Worktree::new_branch(
            "/path/to/linked-worktree-locked-no-reason",
            hash("5678abc5678abc5678abc5678abc5678abc5678c"),
            LocalBranchRef::from("locked-no-reason"),
        )
        .with_locked(""),
        Worktree::new_branch(
            "/path/to/linked-worktree-locked-with-reason",
            hash("3456def3456def3456def3456def3456def3456b"),
            LocalBranchRef::from("locked-with-reason"),
        )
        .with_locked("reason why is locked"),
        Worktree::new_detached(
            "/path/to/linked-worktree-prunable",
            hash("1233def1234def1234def1234def1234def1234b"),
        )
        .with_prunable("gitdir file points to non-existent location"),
    ]
}

#[test]
fn parse_test_parse_worktrees_list() {
    let worktrees = Worktrees::parser(&listing()).unwrap();

    assert_eq!(worktrees.main_path(), "/path/to/bare-source");

    let mut worktrees = worktrees.into_inner();
    worktrees.sort_by_key(|worktree| worktree.path.to_owned());

    assert_eq!(worktrees, expected_sorted());
}

#[test]
fn worktree_test_parse_worktrees_list() {
    let worktrees = Worktrees::from_str(&listing()).unwrap();

    assert_eq!(worktrees.main().path, "/path/to/bare-source");

    let mut worktrees = worktrees.into_inner();
    worktrees.sort_by_key(|worktree| worktree.path.to_owned());

    assert_eq!(worktrees, expected_sorted());
}

#[test]
fn test_parse_worktrees_one_main() {
    let worktrees = Worktrees::parser(&listing()).unwrap();
    assert_eq!(worktrees.len(), 6);
    assert_eq!(
        worktrees.as_vec().iter().filter(|worktree| worktree.is_main).count(),
        1
    );
    // The main worktree is the first block of the listing, and comes first.
    assert!(worktrees.as_vec()[0].is_main);
    assert_eq!(worktrees.main(), &Worktree::new_bare("/path/to/bare-source"));
    assert_eq!(worktrees.clone().into_main(), Worktree::new_bare("/path/to/bare-source"));
    // The linked worktrees keep the order of the listing.
    let paths: Vec<&str> = worktrees.as_vec().iter().map(|worktree| worktree.path.as_str()).collect();
    assert_eq!(
        paths,
        [
            "/path/to/bare-source",
            "/Users/wiggles/cabal/accept",
            "/Users/wiggles/lix",
            "/path/to/linked-worktree-locked-no-reason",
            "/path/to/linked-worktree-locked-with-reason",
            "/path/to/linked-worktree-prunable",
        ]
    );
}

#[test]
fn test_parse_worktrees_main_not_bare() {
    let input = "worktree /repo\0HEAD 0685cb3fec8b7144f865638cfd16768e15125fc2\0branch refs/heads/main\0\0";
    let worktrees = Worktrees::parser(input).unwrap();
    assert_eq!(worktrees.len(), 1);
    assert_eq!(
        worktrees.main(),
        &Worktree::new_branch(
            "/repo",
            hash("0685cb3fec8b7144f865638cfd16768e15125fc2"),
            LocalBranchRef::from("main")
        )
        .with_is_main(true)
    );
    assert!(worktrees.main().is_main);
}

#[test]
fn test_parse_worktrees_errors() {
    // An empty listing has no main worktree.
    assert_eq!(Worktrees::parser("").unwrap_err().offset, 0);
    // Not a block.
    assert_eq!(Worktrees::parser("puppy").unwrap_err().offset, 0);
    // An empty path.
    assert_eq!(Worktrees::parser("worktree \0bare\0\0").unwrap_err().offset, 9);
    // Neither `bare` nor `HEAD`.
    assert_eq!(Worktrees::parser("worktree /a\0naked\0\0").unwrap_err().offset, 12);
    // A commit hash that is too short.
    assert_eq!(Worktrees::parser("worktree /a\0HEAD abc\0detached\0\0").unwrap_err().offset, 20);
    // Neither `branch` nor `detached` after the hash.
    let head = "worktree /a\0HEAD 0685cb3fec8b7144f865638cfd16768e15125fc2\0";
    assert_eq!(head.chars().count(), 58);
    assert_eq!(Worktrees::parser(&format!("{head}attached\0\0")).unwrap_err().offset, 58);
    // A ref after `branch` that is no ref.
    assert_eq!(
        Worktrees::parser(&format!("{head}branch heads/main\0\0")).unwrap_err().offset,
        65
    );
    // The block does not end with an empty line.
    assert_eq!(Worktrees::parser(&format!("{head}detached\0")).unwrap_err().offset, 67);
    // `locked` without a NUL or a reason is no `locked` line.
    assert_eq!(
        Worktrees::parser(&format!("{head}detached\0lockedx\0\0")).unwrap_err().offset,
        67
    );
    assert_eq!(
        Worktrees::parser(&format!("{head}detached\0locked \0\0")).unwrap_err().offset,
        67
    );
    // The second block is broken: nothing is skipped.
    assert_eq!(
        Worktrees::parser(&format!("{head}detached\0\0worktree /b\0")).unwrap_err().offset,
        80
    );
    assert_eq!(
        Worktrees::parser("").unwrap_err().context.to_string(),
        "while parsing a git worktree listing"
    );
}

#[test]
fn test_parse_worktrees_branch_must_be_local() {
    let head = "worktree /a\0HEAD 0685cb3fec8b7144f865638cfd16768e15125fc2\0";
    let error = Worktrees::parser(&format!("{head}branch refs/remotes/origin/main\0\0")).unwrap_err();
    assert_eq!(error.offset, 65);
    assert_eq!(error.context.to_string(), "expected a branch ref");
    let error = Worktrees::parser(&format!("{head}branch refs/tags/v1\0\0")).unwrap_err();
    assert_eq!(error.context, git_prole::expected("a branch ref"));
}

#[test]
fn test_parse_worktrees_locked_and_prunable() {
    let head = "worktree /a\0HEAD 0685cb3fec8b7144f865638cfd16768e15125fc2\0detached\0";
    let both = Worktrees::parser(&format!("{head}locked why\0prunable\0\0")).unwrap();
    assert_eq!(both.main().locked.as_deref(), Some("why"));
    assert_eq!(both.main().prunable.as_deref(), Some(""));
    // `prunable` before `locked` is not the order of the grammar.
    assert_eq!(
        Worktrees::parser(&format!("{head}prunable\0locked\0\0")).unwrap_err().offset,
        76
    );
}

#[test]
fn test_worktrees_later_block_replaces_earlier_at_same_path() {
    let main = "worktree /repo\0bare\0\0";
    let first = "worktree /a\0HEAD 0685cb3fec8b7144f865638cfd16768e15125fc2\0detached\0\0";
    let second = "worktree /a/\0HEAD 0d484aa498b3c839991d11afb31bc5fcf368493d\0detached\0\0";
    let again = "worktree /repo\0HEAD 0d484aa498b3c839991d11afb31bc5fcf368493d\0detached\0\0";
    let worktrees = Worktrees::parser(&format!("{main}{first}{second}{again}")).unwrap();
    assert_eq!(worktrees.len(), 2);
    // The main worktree stays.
    assert_eq!(worktrees.main(), &Worktree::new_bare("/repo"));
    assert_eq!(
        worktrees.as_vec()[1],
        Worktree::new_detached("/a/", hash("0d484aa498b3c839991d11afb31bc5fcf368493d"))
    );
}

#[test]
fn test_worktrees_parse_corrects_bare_main_path() {
    let input = "worktree /repo\0bare\0\0worktree /repo/main\0HEAD 0685cb3fec8b7144f865638cfd16768e15125fc2\0branch refs/heads/main\0\0";
    let worktrees = Worktrees::parse(input, "/repo/.git").unwrap();
    assert_eq!(worktrees.main_path(), "/repo/.git");
    assert!(worktrees.main().is_main);
    assert_eq!(worktrees.main().head, WorktreeHead::Bare);
    assert_eq!(worktrees.len(), 2);
    assert_eq!(worktrees.as_vec()[1].path, "/repo/main");
    // The same path, written otherwise: nothing changes.
    let same = Worktrees::parse(input, "/repo/").unwrap();
    assert_eq!(same.main_path(), "/repo");
    // A main worktree that is not bare stays where it is.
    let plain = "worktree /repo\0HEAD 0685cb3fec8b7144f865638cfd16768e15125fc2\0branch refs/heads/main\0\0";
    assert_eq!(Worktrees::parse(plain, "/repo/.git").unwrap().main_path(), "/repo");
    // A linked worktree that is listed at the true path gives way.
    let clash = "worktree /repo\0bare\0\0worktree /repo/.git\0HEAD 0685cb3fec8b7144f865638cfd16768e15125fc2\0detached\0\0worktree /x\0HEAD 0685cb3fec8b7144f865638cfd16768e15125fc2\0detached\0\0";
    let moved = Worktrees::parse(clash, "/repo/.git").unwrap();
    assert_eq!(moved.len(), 2);
    assert_eq!(moved.main_path(), "/repo/.git");
    assert_eq!(moved.as_vec()[1].path, "/x");
    assert_eq!(Worktrees::parse("", "/repo/.git").unwrap_err().offset, 0);
}

#[test]
fn test_worktrees_new_marks_main() {
    let worktrees = Worktrees::new(
        Worktree::new_detached("/a", CommitHash::fake()),
        vec![
            Worktree::new_bare("/b"),
            Worktree::new_detached("/c", CommitHash::fake()),
            Worktree::new_detached("/b/", CommitHash::fake()),
            Worktree::new_bare("/a"),
        ],
    );
    let list = worktrees.as_vec();
    assert_eq!(list.len(), 3);
    assert_eq!(list[0], Worktree::new_detached("/a", CommitHash::fake()).with_is_main(true));
    assert_eq!(list[1], Worktree::new_detached("/b/", CommitHash::fake()));
    assert_eq!(list[2], Worktree::new_detached("/c", CommitHash::fake()));
}

#[test]
fn test_worktrees_for_branch() {
    let worktrees = Worktrees::parser(&listing()).unwrap();
    assert_eq!(
        worktrees.for_branch(&LocalBranchRef::from("locked-no-reason")).map(|found| found.path.as_str()),
        Some("/path/to/linked-worktree-locked-no-reason")
    );
    assert_eq!(worktrees.for_branch(&LocalBranchRef::from("main")), None);
    assert_eq!(
        worktrees.first_not_bare().map(|found| found.path.as_str()),
        Some("/Users/wiggles/cabal/accept")
    );
}

#[test]
fn test_worktree_head() {
    let bare = WorktreeHead::Bare;
    assert!(bare.is_bare());
    assert!(!bare.is_detached());
    assert_eq!(bare.commit(), None);
    assert_eq!(bare.branch(), None);
    assert_eq!(bare.commitish(), None);
    assert_eq!(bare.to_string(), "bare");
    let detached = WorktreeHead::Detached(CommitHash::fake());
    assert!(detached.is_detached());
    assert_eq!(detached.commit(), Some(&CommitHash::fake()));
    assert_eq!(detached.commitish().unwrap().to_string(), "aaaaaaaa");
    assert_eq!(detached.to_string(), "aaaaaaaa");
    let branch = WorktreeHead::Branch(CommitHash::fake(), LocalBranchRef::from("puppy"));
    assert_eq!(branch.branch(), Some(&LocalBranchRef::from("puppy")));
    assert_eq!(branch.commit(), Some(&CommitHash::fake()));
    assert_eq!(branch.commitish().unwrap().to_qualified_string(), "refs/heads/puppy");
    assert_eq!(branch.to_string(), "puppy");
    assert_eq!(WorktreeHead::parser("bare\0").unwrap(), WorktreeHead::Bare);
    assert_eq!(
        WorktreeHead::parser(&format!("HEAD {}\0branch refs/heads/puppy\0", "a".repeat(40))).unwrap(),
        branch
    );
    assert_eq!(WorktreeHead::parser("bare\0x").unwrap_err().offset, 5);
    assert_eq!(
        Worktree::parser("worktree /a\0bare\0\0").unwrap(),
        Worktree::new_bare("/a").with_is_main(false)
    );
}

#[test]
fn test_worktree_display() {
    let worktrees = Worktrees::parser(&listing()).unwrap();
    assert_eq!(
        worktrees.to_string(),
        "/path/to/bare-source bare [main]
/Users/wiggles/cabal/accept rebeccat/fix-accept-flag
/Users/wiggles/lix 0d484aa4
/path/to/linked-worktree-locked-no-reason locked-no-reason (locked)
/path/to/linked-worktree-locked-with-reason locked-with-reason (locked: reason why is locked)
/path/to/linked-worktree-prunable 1233def1 (prunable: gitdir file points to non-existent location)"
    );
    assert_eq!(
        Worktree::new_bare("/a").with_locked("x").with_prunable("").to_string(),
        "/a bare [main] (locked: x) (prunable)"
    );
}
