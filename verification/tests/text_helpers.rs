use modpack_updater::text::{
    chars_of, glue, decimal_string, is_whitespace, parse_u64, same_chars, starts_with_at,
    string_of, take_line, trim_bounds,
};

#[test]
fn decimal_of_small_and_large_numbers() {
    assert_eq!(decimal_string(0), "0");
    assert_eq!(decimal_string(7), "7");
    assert_eq!(decimal_string(10), "10");
    assert_eq!(decimal_string(1234567890), "1234567890");
    assert_eq!(decimal_string(u64::MAX), "18446744073709551615");
}

#[test]
fn decimal_agrees_with_the_standard_library() {
    let mut n: u64 = 1;
    for _ in 0..64 {
        assert_eq!(decimal_string(n), n.to_string());
        assert_eq!(decimal_string(n - 1), (n - 1).to_string());
        n = n.wrapping_mul(2);
    }
}

#[test]
fn whitespace_is_what_unicode_says() {
    let mut code: u32 = 0;
    while code <= 0x10FFFF {
        if let Some(c) = char::from_u32(code) {
            assert_eq!(is_whitespace(c), c.is_whitespace(), "U+{:04X}", code);
        }
        code += 1;
    }
}

#[test]
fn numbers_are_read_like_the_standard_library_reads_them() {
    for text in [
        "0",
        "12",
        "+12",
        "007",
        "",
        "+",
        "-1",
        "1 ",
        " 1",
        "1a",
        "18446744073709551615",
        "18446744073709551616",
        "99999999999999999999999",
        "+-1",
        "++1",
        "１２",
    ] {
        let chars: Vec<char> = text.chars().collect();
        assert_eq!(parse_u64(&chars, 0), text.parse::<u64>().ok(), "{:?}", text);
    }
}

#[test]
fn numbers_are_read_from_a_position() {
    let chars: Vec<char> = "size 42".chars().collect();
    assert_eq!(parse_u64(&chars, 5), Some(42));
    assert_eq!(parse_u64(&chars, 7), None);
    assert_eq!(parse_u64(&chars, 0), None);
}

#[test]
fn characters_and_strings_convert_back_and_forth() {
    let chars = chars_of("héllo wörld");
    assert_eq!(chars.len(), 11);
    assert_eq!(string_of(&chars, 0, 11), "héllo wörld");
    assert_eq!(string_of(&chars, 6, 11), "wörld");
    assert_eq!(string_of(&chars, 3, 3), "");
    assert_eq!(glue("ab", "cd"), "abcd");
}

#[test]
fn prefixes_are_found_where_they_are() {
    let text = chars_of("oid sha256:abc");
    let prefix = chars_of("oid sha256:");
    assert!(starts_with_at(&text, 0, &prefix));
    assert!(!starts_with_at(&text, 1, &prefix));
    assert!(starts_with_at(&text, 4, &chars_of("sha")));
    assert!(!starts_with_at(&text, 12, &prefix));
    assert!(starts_with_at(&text, 14, &chars_of("")));
    assert!(!starts_with_at(&text, 15, &chars_of("")));
    assert!(same_chars(&text, &chars_of("oid sha256:abc")));
    assert!(!same_chars(&text, &prefix));
}

#[test]
fn trimming_finds_the_bounds() {
    assert_eq!(trim_bounds(&chars_of("  ab  ")), (2, 4));
    assert_eq!(trim_bounds(&chars_of("ab")), (0, 2));
    assert_eq!(trim_bounds(&chars_of("")), (0, 0));
    assert_eq!(trim_bounds(&chars_of("   ")), (3, 3));
    assert_eq!(trim_bounds(&chars_of(" a b ")), (1, 4));
}

#[test]
fn lines_are_cut_at_line_feeds() {
    let text = chars_of("ab\r\ncd\n\nef\r");
    let (line, end) = take_line(&text, 0);
    assert_eq!((line, end), (chars_of("ab"), 3));
    let (line, end) = take_line(&text, 4);
    assert_eq!((line, end), (chars_of("cd"), 6));
    let (line, end) = take_line(&text, 7);
    assert_eq!((line, end), (chars_of(""), 7));
    let (line, end) = take_line(&text, 8);
    assert_eq!((line, end), (chars_of("ef\r"), 11));
}
