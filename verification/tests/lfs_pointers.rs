use modpack_updater::lfs::{batch_url, is_lfs_pointer_file};

const OID: &str = "4d7a214614ab2935c943f9e0ff69d22eadbb8f32b1258daaa5e2ca24d17e2393";

fn pointer(size: &str) -> String {
    format!("version https://git-lfs.github.com/spec/v1\noid sha256:{}\nsize {}\n", OID, size)
}

#[test]
fn pointer_file_gives_hash_and_size() {
    assert_eq!(is_lfs_pointer_file(&pointer("12345")), Some((OID.to_string(), 12345)));
}

#[test]
fn pointer_file_may_lack_the_last_line_feed() {
    let content = format!("version https://git-lfs.github.com/spec/v1\noid sha256:{}\nsize 7", OID);
    assert_eq!(is_lfs_pointer_file(&content), Some((OID.to_string(), 7)));
}

#[test]
fn pointer_file_may_have_windows_line_endings() {
    let content =
        format!("version https://git-lfs.github.com/spec/v1\r\noid sha256:{}\r\nsize 7\r\n", OID);
    assert_eq!(is_lfs_pointer_file(&content), Some((OID.to_string(), 7)));
}

#[test]
fn pointer_file_may_go_on_after_the_size() {
    let content = pointer("7") + "x-extra 1\n";
    assert_eq!(is_lfs_pointer_file(&content), Some((OID.to_string(), 7)));
}

#[test]
fn pointer_size_may_carry_a_plus() {
    assert_eq!(is_lfs_pointer_file(&pointer("+12")), Some((OID.to_string(), 12)));
}

#[test]
fn pointer_hash_may_be_empty() {
    let content = "version https://git-lfs.github.com/spec/v1\noid sha256:\nsize 1\n";
    assert_eq!(is_lfs_pointer_file(content), Some((String::new(), 1)));
}

#[test]
fn pointer_size_must_be_a_number_that_fits() {
    assert_eq!(is_lfs_pointer_file(&pointer("")), None);
    assert_eq!(is_lfs_pointer_file(&pointer("abc")), None);
    assert_eq!(is_lfs_pointer_file(&pointer("-1")), None);
    assert_eq!(is_lfs_pointer_file(&pointer("1.5")), None);
    assert_eq!(is_lfs_pointer_file(&pointer("12 ")), None);
    assert_eq!(is_lfs_pointer_file(&pointer("18446744073709551616")), None);
    assert_eq!(
        is_lfs_pointer_file(&pointer("18446744073709551615")),
        Some((OID.to_string(), u64::MAX))
    );
}

#[test]
fn other_files_are_no_pointers() {
    assert_eq!(is_lfs_pointer_file(""), None);
    assert_eq!(is_lfs_pointer_file("hello"), None);
    assert_eq!(is_lfs_pointer_file("version https://git-lfs.github.com/spec/v1\n"), None);
    assert_eq!(
        is_lfs_pointer_file("version https://git-lfs.github.com/spec/v1\noid sha256:ab\n"),
        None
    );
    assert_eq!(
        is_lfs_pointer_file("version https://git-lfs.github.com/spec/v2\noid sha256:ab\nsize 1\n"),
        None
    );
    assert_eq!(
        is_lfs_pointer_file("version https://git-lfs.github.com/spec/v1\noid sha512:ab\nsize 1\n"),
        None
    );
    assert_eq!(
        is_lfs_pointer_file("version https://git-lfs.github.com/spec/v1\noid sha256:ab\nsize1\n"),
        None
    );
    assert_eq!(
        is_lfs_pointer_file("\nversion https://git-lfs.github.com/spec/v1\noid sha256:ab\nsize 1\n"),
        None
    );
    assert_eq!(
        is_lfs_pointer_file("version https://git-lfs.github.com/spec/v1\n\noid sha256:ab\nsize 1\n"),
        None
    );
}

fn pointer_by_the_standard_library(content: &str) -> Option<(String, u64)> {
    let lines: Vec<&str> = content.lines().collect();
    if lines.len() >= 3
        && lines[0] == "version https://git-lfs.github.com/spec/v1"
        && lines[1].starts_with("oid sha256:")
        && lines[2].starts_with("size ")
    {
        let oid = lines[1].strip_prefix("oid sha256:").unwrap_or("").to_string();
        let size = lines[2].strip_prefix("size ").unwrap_or("0");
        if let Ok(size) = size.parse::<u64>() {
            return Some((oid, size));
        }
    }
    None
}

#[test]
fn pointers_are_read_as_the_standard_library_would() {
    let v = "version https://git-lfs.github.com/spec/v1";
    for content in [
        format!("{}\noid sha256:ab\nsize 1", v),
        format!("{}\r\noid sha256:ab\r\nsize 1\r", v),
        format!("{}\r\noid sha256:ab\r\nsize 1\r\n", v),
        format!("{}\roid sha256:ab\nsize 1\n", v),
        format!("{}\n\roid sha256:ab\nsize 1\n", v),
        format!("{}\noid sha256:ab\r\r\nsize 1\n", v),
        format!("{}\noid sha256:ab\nsize 1\r\r\n", v),
        format!("{}\noid sha256:ab\nsize \n", v),
        format!("{}\n\n\n", v),
        "\n\n\n".to_string(),
        "\r\n".to_string(),
    ] {
        assert_eq!(
            is_lfs_pointer_file(&content),
            pointer_by_the_standard_library(&content),
            "{:?}",
            content
        );
    }
}

#[test]
fn batch_endpoint_of_a_repository() {
    assert_eq!(
        batch_url("minecraftwithtwink", "Twinkcraft-Modpack"),
        "https://github.com/minecraftwithtwink/Twinkcraft-Modpack.git/info/lfs/objects/batch"
    );
}
