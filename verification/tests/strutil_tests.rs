use yana_media::strutil::{
    find_after_last, find_first, str_contains, str_eq, to_ascii_lower, trim_both_char,
    trim_end_char, trim_spaces,
};

#[test]
fn substring_search_matches_std() {
    assert!(str_contains("HTTP error 404 from host", "HTTP error 404"));
    assert!(str_contains("abc", ""));
    assert!(str_contains("", ""));
    assert!(!str_contains("", "a"));
    assert!(!str_contains("abc", "abcd"));
    assert!(str_contains("aaab", "aab"));
    assert!(!str_contains("aaab", "abb"));
}

#[test]
fn equality_and_lowering() {
    assert!(str_eq("same", "same"));
    assert!(!str_eq("same", "Same"));
    assert!(!str_eq("a", "ab"));
    assert_eq!(to_ascii_lower("MiXeD-123_"), "mixed-123_");
    assert_eq!(to_ascii_lower(""), "");
}

#[test]
fn trimming_variants() {
    assert_eq!(trim_spaces("  padded \t"), "padded");
    assert_eq!(trim_spaces("inner space kept"), "inner space kept");
    assert_eq!(trim_spaces("   "), "");
    assert_eq!(trim_end_char("https://h///", '/'), "https://h");
    assert_eq!(trim_both_char("//k/x//", '/'), "k/x");
    assert_eq!(trim_both_char("////", '/'), "");
}

#[test]
fn index_helpers_find_positions() {
    assert_eq!(find_first("a?b?c", '?'), 1);
    assert_eq!(find_first("abc", '?'), 3);
    assert_eq!(find_after_last("a/b/c", '/'), 4);
    assert_eq!(find_after_last("abc", '/'), 0);
}
