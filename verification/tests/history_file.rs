use modpack_updater::history::{
    entries_of, get_history_path, get_tutorial_flag_path, keep_existing, render,
    should_start_tutorial,
};

fn strings(items: &[&str]) -> Vec<String> {
    items.iter().map(|s| s.to_string()).collect()
}

#[test]
fn history_is_one_path_per_line() {
    assert_eq!(render(&strings(&["/a", "/b c", "/d"])), "/a\n/b c\n/d");
    assert_eq!(render(&strings(&["/a"])), "/a");
    assert_eq!(render(&Vec::new()), "");
}

#[test]
fn history_is_read_without_empty_lines() {
    assert_eq!(entries_of("/a\n/b c\n/d"), strings(&["/a", "/b c", "/d"]));
    assert_eq!(entries_of("/a\n\n\n/b\n"), strings(&["/a", "/b"]));
    assert_eq!(entries_of(""), Vec::<String>::new());
    assert_eq!(entries_of("\n\n"), Vec::<String>::new());
    assert_eq!(entries_of("/a\r\n/b\r\n"), strings(&["/a", "/b"]));
}

#[test]
fn history_is_read_as_the_standard_library_would() {
    for content in ["/a\n/b", "/a\r\n\r\n/b\r", "\n/a", "/a\n", "\r", "\r\n\r", "a\rb\nc", ""] {
        let expected: Vec<String> =
            content.lines().filter(|l| !l.is_empty()).map(|l| l.to_string()).collect();
        assert_eq!(entries_of(content), expected, "{:?}", content);
    }
}

#[test]
fn history_survives_being_written_and_read() {
    let history = strings(&["/home/me/one", "/home/me/two words", "C:\\Users\\me"]);
    assert_eq!(entries_of(&render(&history)), history);
}

#[test]
fn loading_drops_what_is_no_longer_a_directory() {
    let saved = strings(&["/gone", "/here", "/a-file-now", "/also-here"]);
    let still_there = vec![false, true, false, true];
    assert_eq!(keep_existing(&saved, &still_there), strings(&["/here", "/also-here"]));
}

#[test]
fn loading_never_returns_a_path_that_is_gone() {
    let saved = strings(&["/a", "/b", "/c"]);
    for mask in 0..8u8 {
        let flags: Vec<bool> = (0..3).map(|i| mask & (1 << i) != 0).collect();
        let kept = keep_existing(&saved, &flags);
        for path in &kept {
            let at = saved.iter().position(|p| p == path).unwrap();
            assert!(flags[at]);
        }
        assert_eq!(kept.len(), flags.iter().filter(|f| **f).count());
    }
}

#[test]
fn loading_nothing_gives_nothing() {
    assert!(keep_existing(&Vec::new(), &Vec::new()).is_empty());
    assert!(keep_existing(&strings(&["/a"]), &vec![false]).is_empty());
}

#[test]
fn tour_starts_for_a_new_user_only() {
    let empty: Vec<String> = Vec::new();
    let used = strings(&["/a"]);
    assert!(should_start_tutorial(Some(&empty), Some(false)));
    assert!(should_start_tutorial(None, Some(false)));
    assert!(should_start_tutorial(Some(&empty), None));
    assert!(should_start_tutorial(None, None));
    assert!(!should_start_tutorial(Some(&empty), Some(true)));
    assert!(!should_start_tutorial(Some(&used), Some(false)));
    assert!(!should_start_tutorial(Some(&used), None));
    assert!(!should_start_tutorial(None, Some(true)));
}

#[test]
fn files_lie_in_the_configuration_directory() {
    let dir = std::path::Path::new("cfg").join("app");
    let dir = dir.to_str().unwrap();
    assert_eq!(
        std::path::PathBuf::from(get_history_path(dir)),
        std::path::Path::new(dir).join("history.txt")
    );
    assert_eq!(
        std::path::PathBuf::from(get_tutorial_flag_path(dir)),
        std::path::Path::new(dir).join("tutorial.flag")
    );
    assert_ne!(get_history_path(dir), dir);
}
