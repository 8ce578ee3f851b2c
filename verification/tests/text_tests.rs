use atomdesk::text::{
    find_char, last_path_segment, parse_u32, replace_all, str_contains, str_ends_with, str_eq,
    str_starts_with, str_trim, substring_of, u64_to_string,
};

#[test]
fn starts_and_ends() {
    assert!(str_starts_with("https://example.com", "https://"));
    assert!(!str_starts_with("http://example.com", "https://"));
    assert!(str_starts_with("anything", ""));
    assert!(str_ends_with("origin/HEAD", "/HEAD"));
    assert!(!str_ends_with("origin/head", "/HEAD"));
    assert!(!str_ends_with("EAD", "/HEAD"));
}

#[test]
fn contains_and_find() {
    assert!(str_contains("error: hostkey preference mismatch", "hostkey preference"));
    assert!(!str_contains("all good", "hostkey"));
    assert!(str_contains("abc", ""));
    assert_eq!(find_char("a/b/c", '/'), Some(1));
    assert_eq!(find_char("abc", '/'), None);
}

#[test]
fn equality_and_substring() {
    assert!(str_eq("main", "main"));
    assert!(!str_eq("main", "master"));
    assert_eq!(substring_of("refs/heads/main", 11, 15), "main");
}

#[test]
fn trimming() {
    assert_eq!(str_trim("  git version 2.43.0\n"), "git version 2.43.0");
    assert_eq!(str_trim("\t\r\n "), "");
    assert_eq!(str_trim("x"), "x");
}

#[test]
fn path_segments() {
    assert_eq!(last_path_segment("/home/user/repo"), "repo");
    assert_eq!(last_path_segment("repo"), "repo");
    assert_eq!(last_path_segment("/ends/with/"), "");
}

#[test]
fn replacing() {
    assert_eq!(replace_all("key.pem", ".pem", ".pub"), "key.pub");
    assert_eq!(replace_all("a.key.key", ".key", ".pub"), "a.pub.pub");
    assert_eq!(replace_all("plain", ".pem", ".pub"), "plain");
}

#[test]
fn decimal_rendering() {
    assert_eq!(u64_to_string(0), "0");
    assert_eq!(u64_to_string(7), "7");
    assert_eq!(u64_to_string(12345), "12345");
    assert_eq!(u64_to_string(u64::MAX), "18446744073709551615");
}

#[test]
fn decimal_parsing() {
    assert_eq!(parse_u32("0"), Some(0));
    assert_eq!(parse_u32("123"), Some(123));
    assert_eq!(parse_u32("4294967295"), Some(u32::MAX));
    assert_eq!(parse_u32("4294967296"), None);
    assert_eq!(parse_u32(""), None);
    assert_eq!(parse_u32("12a"), None);
    assert_eq!(parse_u32("-3"), None);
}
