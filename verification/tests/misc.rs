use std::str::FromStr;

use git_prole::final_component;
use git_prole::format_bulleted_list;
use git_prole::format_bulleted_list_multiline;
use git_prole::git::GitRemote;
use git_prole::looks_like_gh_url;
use git_prole::only_paths_in_parent_directory;
use git_prole::only_paths_in_parent_directory::path_contains_only_names_and_dotfiles;
use git_prole::only_paths_in_parent_directory::shared_parent;
use git_prole::parse_gh_url;
use git_prole::repository_url_destination;
use git_prole::text;
use git_prole::till_null;
use git_prole::Ref;

fn strings(items: &[&str]) -> Vec<String> {
    items.iter().map(|item| item.to_string()).collect()
}

#[test]
fn test_format_bulleted_list() {
    assert_eq!(format_bulleted_list(&Vec::<String>::new()), "");

    assert_eq!(format_bulleted_list(&strings(&["puppy"])), "• puppy");
    assert_eq!(
        format_bulleted_list(&strings(&["puppy", "doggy"])),
        "• puppy\n• doggy"
    );
}

#[test]
fn test_format_bulleted_list_multiline() {
    assert_eq!(format_bulleted_list_multiline(&Vec::<String>::new()), "");

    assert_eq!(format_bulleted_list_multiline(&strings(&["puppy"])), "• puppy");
    assert_eq!(
        format_bulleted_list_multiline(&strings(&["puppy", "doggy"])),
        "• puppy\n• doggy"
    );

    assert_eq!(
        format_bulleted_list_multiline(&strings(&[
            "puppy\ndoggy",
            "sammy\ngoldie",
            &format_bulleted_list_multiline(&strings(&["ears", "tail", "fetch!"]))
        ])),
        "• puppy\n  doggy\n• sammy\n  goldie\n• • ears\n  • tail\n  • fetch!"
    );
}

#[test]
fn test_format_bulleted_list_multiline_edges() {
    // An item of one line stays as it is, its line end included.
    assert_eq!(format_bulleted_list_multiline(&strings(&["puppy\n"])), "• puppy\n");
    // An item without a line.
    assert_eq!(format_bulleted_list_multiline(&strings(&["", "a"])), "• \n• a");
    assert_eq!(
        format_bulleted_list_multiline(&strings(&["a\r\nb\n\nc\n"])),
        "• a\n  b\n  \n  c"
    );
}

#[test]
fn test_looks_like_gh_url() {
    assert!(looks_like_gh_url("9999years/git-prole", false));
    assert!(looks_like_gh_url("lf-/flakey-profile", false));
    assert!(looks_like_gh_url("soft/puppy_doggy", false));
    assert!(looks_like_gh_url("soft/puppy.doggy", false));

    assert!(looks_like_gh_url(
        &format!("{}/{}", "a".repeat(39), "a".repeat(100)),
        false
    ));
    assert!(!looks_like_gh_url(
        &format!("{}/{}", "a".repeat(40), "a".repeat(100)),
        false
    ));
    assert!(!looks_like_gh_url(
        &format!("{}/{}", "a".repeat(39), "a".repeat(101)),
        false
    ));
}

#[test]
fn test_parse_gh_url_rejects() {
    assert!(!looks_like_gh_url("9999years/git-prole", true));
    assert!(parse_gh_url("9999years/git-prole"));
    assert!(!parse_gh_url(""));
    assert!(!parse_gh_url("/"));
    assert!(!parse_gh_url("puppy"));
    assert!(!parse_gh_url("puppy/"));
    assert!(!parse_gh_url("/doggy"));
    assert!(!parse_gh_url("puppy/doggy/"));
    assert!(!parse_gh_url("puppy/dog gy"));
    assert!(!parse_gh_url("git@github.com:puppy/doggy"));
    assert!(!parse_gh_url("https://github.com/puppy/doggy"));
}

#[test]
fn test_repository_url_destination() {
    assert_eq!(repository_url_destination("puppy/doggy"), "doggy");

    assert_eq!(repository_url_destination("puppy/doggy.git"), "doggy");
    assert_eq!(repository_url_destination("silly/puppy/doggy.git"), "doggy");
    assert_eq!(
        repository_url_destination("git@github.com:silly/doggy.git"),
        "doggy"
    );
    assert_eq!(
        repository_url_destination("git@github.com/silly/doggy.git"),
        "doggy"
    );
    assert_eq!(
        repository_url_destination("https://github.com/silly/doggy.git"),
        "doggy"
    );
}

#[test]
fn test_repository_url_destination_edges() {
    assert_eq!(repository_url_destination("doggy"), "doggy");
    assert_eq!(repository_url_destination("puppy/.git"), "");
    assert_eq!(repository_url_destination("puppy/"), "");
    assert_eq!(repository_url_destination("puppy/doggy.git.git"), "doggy.git");
}

#[test]
fn test_final_component() {
    assert_eq!(final_component("doggy/puppy"), "puppy");
    assert_eq!(final_component("puppy"), "puppy");
    assert_eq!(final_component("a/b/c"), "c");
    assert_eq!(final_component("a/"), "");
    assert_eq!(final_component(""), "");
    assert_eq!(final_component("ü/ß"), "ß");
}

#[test]
fn test_parse_ls_remote_symref() {
    assert_eq!(
        GitRemote::parse_ls_remote_symref(
            "ref: refs/heads/main\tHEAD\n9afc843b4288394fe3a2680b13070cfd53164b92\tHEAD\n"
        )
        .unwrap(),
        Ref::from_str("refs/heads/main").unwrap(),
    );
}

#[test]
fn test_parse_ls_remote_symref_errors() {
    assert_eq!(GitRemote::parse_ls_remote_symref("refs/heads/main\tHEAD").unwrap_err().offset, 0);
    assert_eq!(GitRemote::parse_ls_remote_symref("ref: \tHEAD").unwrap_err().offset, 5);
    assert_eq!(GitRemote::parse_ls_remote_symref("ref: heads/main\tHEAD").unwrap_err().offset, 5);
    assert_eq!(GitRemote::parse_ls_remote_symref("ref: refs/main\tHEAD").unwrap_err().offset, 14);
    assert_eq!(GitRemote::parse_ls_remote_symref("ref: refs/heads/main").unwrap_err().offset, 20);
}

#[test]
fn test_till_null() {
    let input = "puppy\0doggy\0\0x";
    assert_eq!(till_null(input, 0), Ok(("puppy".to_owned(), 6)));
    assert_eq!(till_null(input, 6), Ok(("doggy".to_owned(), 12)));
    // An empty field.
    assert_eq!(till_null(input, 12), Err(12));
    // No NUL.
    assert_eq!(till_null(input, 13), Err(14));
    assert_eq!(till_null(input, 14), Err(14));
    // Outside the input.
    assert_eq!(till_null(input, 20), Err(20));
}

#[test]
fn test_text_helpers() {
    assert_eq!(text::decimal(0), "0");
    assert_eq!(text::decimal(7), "7");
    assert_eq!(text::decimal(10), "10");
    assert_eq!(text::decimal(4096), "4096");
    assert_eq!(text::decimal(u128::MAX), u128::MAX.to_string());
    assert_eq!(text::replace_char("doggy/puppy/x", '/', "-"), "doggy-puppy-x");
    assert_eq!(text::replace_char("/a//", '/', "--"), "--a----");
    assert_eq!(text::join(&strings(&["a", "b", "c"]), ", "), "a, b, c");
    assert_eq!(text::join(&strings(&["a"]), ", "), "a");
    assert_eq!(text::join(&strings(&[]), ", "), "");
    assert_eq!(text::join(&strings(&["", ""]), "-"), "-");
    assert_eq!(text::trim("  \t puppy doggy \n\u{a0}\u{3000}"), "puppy doggy");
    assert_eq!(text::trim(" \n "), "");
    assert_eq!(text::trim_end("  puppy \r\n"), "  puppy");
    assert_eq!(text::trim_ascii(" \u{c}puppy\u{a0}\r\n"), "puppy\u{a0}");
    for sample in ["", "a", "a\nb", "a\n", "\n", "a\r\nb\r\n", "a\n\nb", "a\r", "\r\n\r\n", "a\rb\n"] {
        assert_eq!(
            text::lines(sample),
            sample.lines().map(String::from).collect::<Vec<_>>()
        );
    }
    for sample in ["", " ", " a ", "\u{2003}a\u{85}", "\u{200b}a", "\u{1680}\u{2028}\u{2029}\u{202f}\u{205f}x"] {
        assert_eq!(text::trim(sample), sample.trim());
        assert_eq!(text::trim_end(sample), sample.trim_end());
        assert_eq!(text::trim_ascii(sample), sample.trim_ascii());
    }
    assert_eq!(text::split_once("a\0b\0c", '\0'), Some(("a".to_owned(), "b\0c".to_owned())));
    assert_eq!(text::split_once("abc", '\0'), None);
    assert!(text::has_suffix("my-repo.git", ".git"));
    assert!(!text::has_suffix("git", ".git"));
    assert!(text::has_prefix(".git", "."));
    assert!(!text::has_prefix("", "."));
}

#[test]
fn test_only_paths_in_parent_directory() {
    let paths = strings(&["/repo/main", "/repo/puppy", "/repo/doggy/"]);
    assert_eq!(
        shared_parent(&paths),
        Some(("/repo".to_owned(), strings(&["main", "puppy", "doggy"])))
    );
    assert_eq!(
        only_paths_in_parent_directory(&paths, &strings(&["main", ".git", "doggy", "puppy", ".envrc"])),
        Some("/repo".to_owned())
    );
    // Another file is in the directory.
    assert_eq!(
        only_paths_in_parent_directory(&paths, &strings(&["main", "doggy", "puppy", "README.md"])),
        None
    );
    // The paths do not share a parent.
    assert_eq!(shared_parent(&strings(&["/repo/main", "/other/puppy"])), None);
    assert_eq!(
        only_paths_in_parent_directory(&strings(&["/repo/main", "/other/puppy"]), &Vec::new()),
        None
    );
    // No parent, no name, no path.
    assert_eq!(shared_parent(&strings(&["/"])), None);
    assert_eq!(shared_parent(&strings(&["/repo/.."])), None);
    assert_eq!(shared_parent(&Vec::new()), None);
    assert!(path_contains_only_names_and_dotfiles(&Vec::new(), &Vec::new()));
    assert!(!path_contains_only_names_and_dotfiles(&strings(&["a"]), &strings(&["b"])));
}
