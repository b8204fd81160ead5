use std::str::FromStr;

use git_prole::BranchRef;
use git_prole::LocalBranchRef;
use git_prole::Ref;
use git_prole::RemoteBranchRef;

#[test]
fn test_ref_parse_no_slash() {
    assert!(Ref::from_str("refs/puppy").is_err());
}

#[test]
fn test_ref_parse_simple() {
    assert_eq!(
        Ref::from_str("refs/puppy/doggy").unwrap(),
        Ref::new("puppy".into(), "doggy".into())
    );
}

#[test]
fn test_ref_parse_multiple_slashes() {
    assert_eq!(
        Ref::from_str("refs/puppy/doggy/softie/cutie").unwrap(),
        Ref::new("puppy".into(), "doggy/softie/cutie".into())
    );
}

#[test]
fn test_ref_parse_error_offsets() {
    assert_eq!(Ref::parser("heads/puppy").unwrap_err().offset, 0);
    assert_eq!(Ref::parser("refs//puppy").unwrap_err().offset, 5);
    assert_eq!(Ref::parser("refs/puppy").unwrap_err().offset, 10);
    assert_eq!(Ref::parser("refs/heads/").unwrap_err().offset, 11);
    assert_eq!(Ref::parser("").unwrap_err().offset, 0);
    assert_eq!(
        Ref::parser("refs/puppy").unwrap_err().context.to_string(),
        "while parsing a ref name"
    );
    assert_eq!(Ref::parser("refs/puppy").unwrap_err().to_string(), "Parsing failed");
}

#[test]
fn test_ref_round_trip() {
    for text in [
        "refs/heads/main",
        "refs/remotes/origin/puppy/doggy",
        "refs/tags/v1.0.0",
        "refs/stash/x",
        "refs/h/ /",
    ] {
        let parsed = Ref::parser(text).unwrap();
        assert_eq!(parsed.to_qualified_string(), text);
        assert_eq!(Ref::parser(&parsed.to_qualified_string()).unwrap(), parsed);
    }
}

#[test]
fn test_ref_kinds() {
    let local = Ref::from_str("refs/heads/main").unwrap();
    assert_eq!(local.kind(), "heads");
    assert_eq!(local.kind(), Ref::HEADS);
    assert_eq!(local.name(), "main");
    assert!(local.is_local_branch());
    assert!(!local.is_remote_branch());
    assert!(!local.is_tag());
    let remote = Ref::from_str("refs/remotes/origin/main").unwrap();
    assert_eq!(remote.kind(), Ref::REMOTES);
    assert!(remote.is_remote_branch());
    assert!(!remote.is_local_branch());
    let tag = Ref::from_str("refs/tags/v1").unwrap();
    assert_eq!(tag.kind(), Ref::TAGS);
    assert!(tag.is_tag());
    assert_eq!(tag.to_string(), "v1");
    assert_eq!(tag.to_qualified_string(), "refs/tags/v1");
}

#[test]
fn local_branch_ref_try_from() {
    let branch =
        LocalBranchRef::try_from(Ref::from_str("refs/heads/puppy/doggy").unwrap()).unwrap();

    assert_eq!(branch.branch_name(), "puppy/doggy");
}

#[test]
fn local_branch_ref_try_from_other_kind() {
    let given = Ref::from_str("refs/remotes/origin/puppy").unwrap();
    assert_eq!(LocalBranchRef::try_from(given.clone()).unwrap_err(), given);
}

#[test]
fn local_branch_ref_from_str() {
    let branch = LocalBranchRef::from("puppy");

    assert_eq!(branch, Ref::from_str("refs/heads/puppy").unwrap());
}

#[test]
fn test_local_branch_new() {
    assert_eq!(
        LocalBranchRef::new("puppy".into()),
        Ref::from_str("refs/heads/puppy").unwrap(),
    );
}

#[test]
fn test_local_branch_branch_name() {
    assert_eq!(LocalBranchRef::new("puppy".into()).branch_name(), "puppy",);
}

#[test]
fn test_local_branch_on_remote() {
    assert_eq!(
        LocalBranchRef::new("puppy".into()).on_remote("origin"),
        Ref::from_str("refs/remotes/origin/puppy").unwrap(),
    );
}

#[test]
fn local_branch_test_remote_branch_display() {
    let branch = LocalBranchRef::new("puppy".into());
    assert_eq!(branch.to_string(), "puppy");
    assert_eq!(branch.to_qualified_string(), "refs/heads/puppy");
}

#[test]
fn remote_branch_ref_try_from() {
    let branch =
        RemoteBranchRef::try_from(Ref::from_str("refs/remotes/puppy/doggy").unwrap()).unwrap();

    assert_eq!(branch.remote(), "puppy");
    assert_eq!(branch.branch_name(), "doggy");
}

#[test]
fn remote_branch_ref_try_from_rejects() {
    // Another kind.
    let local = Ref::from_str("refs/heads/puppy/doggy").unwrap();
    assert_eq!(RemoteBranchRef::try_from(local.clone()).unwrap_err(), local);
    // No branch after the remote.
    let bare = Ref::from_str("refs/remotes/origin").unwrap();
    assert_eq!(RemoteBranchRef::try_from(bare.clone()).unwrap_err(), bare);
}

#[test]
fn test_remote_branch_new() {
    assert_eq!(
        RemoteBranchRef::new("origin", "puppy"),
        Ref::from_str("refs/remotes/origin/puppy").unwrap(),
    );
}

#[test]
fn test_remote_branch_qualified_branch_name() {
    assert_eq!(
        RemoteBranchRef::new("origin", "puppy").qualified_branch_name(),
        "origin/puppy",
    );
}

#[test]
fn test_remote_branch_remote_and_branch() {
    assert_eq!(
        RemoteBranchRef::new("origin", "puppy/doggy").remote_and_branch(),
        ("origin".to_owned(), "puppy/doggy".to_owned()),
    );
}

#[test]
fn test_remote_branch_branch_name() {
    assert_eq!(
        RemoteBranchRef::new("origin", "puppy").branch_name(),
        "puppy",
    );
}

#[test]
fn test_remote_branch_as_local() {
    assert_eq!(
        RemoteBranchRef::new("origin", "puppy").as_local(),
        Ref::from_str("refs/heads/puppy").unwrap(),
    );
}

#[test]
fn remote_branch_test_remote_branch_display() {
    let branch = RemoteBranchRef::new("origin", "puppy");
    assert_eq!(branch.to_string(), "origin/puppy");
    assert_eq!(branch.to_qualified_string(), "refs/remotes/origin/puppy");
}

#[test]
fn test_branch_ref_try_from() {
    let branch = BranchRef::try_from(Ref::from_str("refs/heads/puppy/doggy").unwrap()).unwrap();

    assert_eq!(branch.branch_name(), "puppy/doggy",);
    assert_eq!(branch.qualified_branch_name(), "puppy/doggy",);

    let branch =
        BranchRef::try_from(Ref::from_str("refs/remotes/puppy/doggy").unwrap()).unwrap();

    assert_eq!(branch.branch_name(), "doggy",);
    assert_eq!(branch.qualified_branch_name(), "puppy/doggy",);

    assert!(BranchRef::try_from(Ref::from_str("refs/tags/v1.0.0").unwrap()).is_err());
}

#[test]
fn test_branch_qualified_branch_name() {
    assert_eq!(
        BranchRef::Remote(RemoteBranchRef::new("origin", "puppy")).qualified_branch_name(),
        "origin/puppy",
    );

    assert_eq!(
        BranchRef::Local(LocalBranchRef::new("puppy".into())).qualified_branch_name(),
        "puppy",
    );
}

#[test]
fn test_branch_branch_name() {
    assert_eq!(
        BranchRef::Remote(RemoteBranchRef::new("origin", "puppy")).branch_name(),
        "puppy",
    );

    assert_eq!(
        BranchRef::Local(LocalBranchRef::new("puppy".into())).branch_name(),
        "puppy",
    );
}

#[test]
fn test_branch_as_local_and_display() {
    let remote = BranchRef::Remote(RemoteBranchRef::new("origin", "puppy/doggy"));
    assert_eq!(remote.as_local(), LocalBranchRef::from("puppy/doggy"));
    assert_eq!(remote.to_string(), "origin/puppy/doggy");
    assert_eq!(remote.to_qualified_string(), "refs/remotes/origin/puppy/doggy");
    assert_eq!(*remote.as_ref(), Ref::from_str("refs/remotes/origin/puppy/doggy").unwrap());
    let local = BranchRef::Local(LocalBranchRef::from("main"));
    assert_eq!(local.as_local(), LocalBranchRef::from("main"));
    assert_eq!(local.to_qualified_string(), "refs/heads/main");
    assert_eq!(local.clone(), local);
}
