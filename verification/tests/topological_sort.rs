use git_prole::topological_sort;

fn test_topological_sort(input: &[&str], expect: &[&str]) {
    let input = input.iter().map(|path| path.to_string()).collect::<Vec<_>>();
    let expect = expect.iter().map(|path| path.to_string()).collect::<Vec<_>>();
    assert_eq!(topological_sort(&input).unwrap(), expect);
}

#[test]
fn test_topological_sort_empty() {
    test_topological_sort(&[], &[]);
}

#[test]
fn test_topological_sort_unrelated() {
    test_topological_sort(
        &["/puppy", "/doggy", "/softie", "/cutie"],
        &["/cutie", "/softie", "/doggy", "/puppy"],
    );
}

#[test]
fn test_topological_sort_mixed() {
    test_topological_sort(
        &[
            "/puppy",
            "/puppy/doggy/cutie",
            "/puppy/softie",
            "/puppy/doggy",
            "/silly",
            "/silly/goofy",
        ],
        &[
            "/silly/goofy",
            "/silly",
            "/puppy/softie",
            "/puppy/doggy/cutie",
            "/puppy/doggy",
            "/puppy",
        ],
    );
}

#[test]
fn test_topological_sort_duplicate() {
    test_topological_sort(&["/puppy", "/puppy"], &["/puppy", "/puppy"]);
}

#[test]
fn test_topological_sort_deterministic() {
    test_topological_sort(
        &[
            "/puppy",
            "/silly/puppy",
            "/my-repo",
            "/silly/my-repo",
            "/puppy.git",
            "/a",
            "/b",
            "/c",
            "/d/c",
            "/e/c",
        ],
        &[
            "/e/c",
            "/d/c",
            "/c",
            "/b",
            "/a",
            "/puppy.git",
            "/silly/my-repo",
            "/my-repo",
            "/silly/puppy",
            "/puppy",
        ],
    );
}

#[test]
fn test_topological_sort_nested_chain() {
    let input = ["/a", "/a/b", "/a/b/c", "/x"].map(String::from).to_vec();
    let sorted = topological_sort(&input).unwrap();
    assert_eq!(sorted.len(), 4);
    let at = |path: &str| sorted.iter().position(|sorted| sorted == path).unwrap();
    assert!(at("/a/b/c") < at("/a/b"));
    assert!(at("/a/b") < at("/a"));
    assert_eq!(sorted, ["/x", "/a/b/c", "/a/b", "/a"]);
}

#[test]
fn test_topological_sort_relative() {
    let input = ["/a", "b/c", "d"].map(String::from).to_vec();
    let error = topological_sort(&input).unwrap_err();
    assert_eq!(error.path, "b/c");
    assert_eq!(error.to_string(), "Path is relative: b/c");
    // The last path is checked, too.
    let input = ["/a", "/b", "c"].map(String::from).to_vec();
    assert_eq!(topological_sort(&input).unwrap_err().path, "c");
}

#[test]
fn test_topological_sort_keeps_duplicates_below_a_path() {
    // Every path is kept, as often as it is given.
    let input = ["/a", "/a", "/a/b", "/a/b", "/a/b/"].map(String::from).to_vec();
    let sorted = topological_sort(&input).unwrap();
    assert_eq!(sorted.len(), input.len());
    let mut given = input.clone();
    let mut got = sorted.clone();
    given.sort();
    got.sort();
    assert_eq!(given, got);
    // All forms of `/a/b` come before both `/a`.
    assert_eq!(&sorted[3..], ["/a", "/a"]);
}

#[test]
fn test_topological_sort_whole_components_only() {
    // `/puppy.git` is not below `/puppy`, and `/pup` is no prefix of `/puppy`.
    let input = ["/puppy", "/puppy.git", "/pup", "/puppy/x"].map(String::from).to_vec();
    assert_eq!(
        topological_sort(&input).unwrap(),
        ["/puppy/x", "/puppy", "/pup", "/puppy.git"]
    );
}
