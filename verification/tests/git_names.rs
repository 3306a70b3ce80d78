use modpack_updater::git::{
    branches_among, fetch_refspec, local_ref, merge_message, parse_input_path, tracking_ref,
    GIT_REMOTE_URL,
};

#[test]
fn refspec_for_main() {
    assert_eq!(fetch_refspec("main"), "+refs/heads/main:refs/remotes/origin/main");
}

#[test]
fn refspec_for_any_branch_has_the_same_shape() {
    for branch in ["main", "dev", "feature/x-1", "", "ünïcode", "a b"] {
        let expected = format!("+refs/heads/{0}:refs/remotes/origin/{0}", branch);
        assert_eq!(fetch_refspec(branch), expected);
    }
}

#[test]
fn refs_of_a_branch() {
    assert_eq!(tracking_ref("main"), "refs/remotes/origin/main");
    assert_eq!(local_ref("main"), "refs/heads/main");
    assert_eq!(merge_message("dev"), "Merge remote-tracking branch 'origin/dev'");
}

#[test]
fn remote_is_the_fixed_upstream() {
    assert_eq!(GIT_REMOTE_URL, "https://github.com/minecraftwithtwink/Twinkcraft-Modpack.git");
}

#[test]
fn branches_are_filtered_stripped_and_sorted() {
    let refs = vec![
        "HEAD".to_string(),
        "refs/heads/main".to_string(),
        "refs/tags/v1".to_string(),
        "refs/heads/dev".to_string(),
        "refs/pull/1/head".to_string(),
        "refs/heads/feature/z".to_string(),
        "refs/heads/Alpha".to_string(),
    ];
    assert_eq!(branches_among(&refs), vec!["Alpha", "dev", "feature/z", "main"]);
}

#[test]
fn branches_of_nothing_are_none() {
    assert!(branches_among(&Vec::new()).is_empty());
    assert!(branches_among(&vec!["refs/tags/v1".to_string()]).is_empty());
}

#[test]
fn branch_prefix_is_stripped_once() {
    let refs = vec!["refs/heads/refs/heads/x".to_string(), "refs/heads/".to_string()];
    assert_eq!(branches_among(&refs), vec!["", "refs/heads/x"]);
}

#[test]
fn branches_sort_by_code_point() {
    let refs = vec![
        "refs/heads/b".to_string(),
        "refs/heads/é".to_string(),
        "refs/heads/a".to_string(),
        "refs/heads/Z".to_string(),
        "refs/heads/ab".to_string(),
    ];
    let mut expected = vec!["b", "é", "a", "Z", "ab"];
    expected.sort();
    assert_eq!(branches_among(&refs), expected);
    assert_eq!(branches_among(&refs), vec!["Z", "a", "ab", "b", "é"]);
}

#[test]
fn typed_path_is_trimmed() {
    assert_eq!(parse_input_path("  /home/me/instance \n", false), "/home/me/instance");
    assert_eq!(parse_input_path("\u{3000}/x\u{a0}", false), "/x");
}

#[test]
fn typed_path_loses_its_quotes() {
    assert_eq!(parse_input_path("\"/home/me/my instance\"", false), "/home/me/my instance");
    assert_eq!(parse_input_path(" \"/a\" ", false), "/a");
    assert_eq!(parse_input_path("\"\"", false), "");
}

#[test]
fn typed_path_keeps_a_lone_quote() {
    assert_eq!(parse_input_path("\"", false), "\"");
    assert_eq!(parse_input_path("\"/a", false), "\"/a");
    assert_eq!(parse_input_path("/a\"", false), "/a\"");
}

#[test]
fn typed_path_gets_the_separators_of_the_platform() {
    assert_eq!(parse_input_path("C:\\Users\\me", false), "C:/Users/me");
    assert_eq!(parse_input_path("C:/Users/me", true), "C:\\Users\\me");
    assert_eq!(parse_input_path("a/b\\c", false), "a/b/c");
    assert_eq!(parse_input_path("a/b\\c", true), "a\\b\\c");
}

#[test]
fn typed_path_of_nothing_is_empty() {
    assert_eq!(parse_input_path("", false), "");
    assert_eq!(parse_input_path("   ", false), "");
}

#[test]
fn typed_path_agrees_with_the_standard_trim() {
    for input in [" a ", "\t\"x y\"\r\n", "\u{2003}q\u{2003}", "\u{200b}z", "\"  a  \""] {
        let trimmed = input.trim();
        let stripped = if trimmed.starts_with('"') && trimmed.ends_with('"') && trimmed.len() > 1 {
            &trimmed[1..trimmed.len() - 1]
        } else {
            trimmed
        };
        assert_eq!(parse_input_path(input, false), stripped.replace('\\', "/"));
    }
}
