use super_daemon::text::{
    contains_str, ends_with_str, parse_u64_or_zero, replace, split_char, split_lines,
    split_whitespace_vec, starts_with_str, str_eq, to_lower_ascii, trim, u32_to_octal_string,
    u64_to_string,
};

#[test]
fn string_equality_is_exact() {
    assert!(str_eq("abc", "abc"));
    assert!(!str_eq("abc", "abd"));
    assert!(!str_eq("abc", "ab"));
    assert!(str_eq("", ""));
}

#[test]
fn replace_substitutes_every_occurrence() {
    assert_eq!(replace("a {{X}} b {{X}}", "{{X}}", "v"), "a v b v");
    assert_eq!(replace("{{DOMAIN}}", "{{DOMAIN}}", "example.com"), "example.com");
    assert_eq!(replace("none here", "{{X}}", "v"), "none here");
    assert_eq!(replace("aaa", "aa", "b"), "ba");
    assert_eq!(replace("spaced user", " ", "_"), "spaced_user");
}

#[test]
fn numbers_render_in_decimal() {
    assert_eq!(u64_to_string(0), "0");
    assert_eq!(u64_to_string(42), "42");
    assert_eq!(u64_to_string(18446744073709551615), "18446744073709551615");
}

#[test]
fn numbers_parse_with_zero_fallback() {
    assert_eq!(parse_u64_or_zero("12345"), 12345);
    assert_eq!(parse_u64_or_zero("0"), 0);
    assert_eq!(parse_u64_or_zero(""), 0);
    assert_eq!(parse_u64_or_zero("12a"), 0);
    assert_eq!(parse_u64_or_zero("-5"), 0);
    assert_eq!(parse_u64_or_zero("99999999999999999999999"), 0);
    assert_eq!(parse_u64_or_zero("18446744073709551615"), 18446744073709551615);
}

#[test]
fn trim_strips_surrounding_whitespace() {
    assert_eq!(trim("  active\n"), "active");
    assert_eq!(trim("\t x y \r\n"), "x y");
    assert_eq!(trim(""), "");
    assert_eq!(trim("   "), "");
}

#[test]
fn lines_split_at_newlines() {
    assert_eq!(split_lines("a\nb\nc"), vec!["a", "b", "c"]);
    assert_eq!(split_lines("a\r\nb\n"), vec!["a", "b"]);
    assert_eq!(split_lines(""), Vec::<String>::new());
    assert_eq!(split_lines("one"), vec!["one"]);
    assert_eq!(split_lines("a\n\nb"), vec!["a", "", "b"]);
}

#[test]
fn whitespace_tokens_drop_blanks() {
    assert_eq!(split_whitespace_vec("  80/tcp   ALLOW   anywhere "), vec![
        "80/tcp", "ALLOW", "anywhere"
    ]);
    assert_eq!(split_whitespace_vec(""), Vec::<String>::new());
    assert_eq!(split_whitespace_vec("one"), vec!["one"]);
}

#[test]
fn split_on_a_character_keeps_empty_pieces() {
    assert_eq!(split_char("80/tcp", '/'), vec!["80", "tcp"]);
    assert_eq!(split_char("a//b", '/'), vec!["a", "", "b"]);
    assert_eq!(split_char("", '/'), vec![""]);
    assert_eq!(split_char("abc", '/'), vec!["abc"]);
}

#[test]
fn ascii_lowercase_maps_only_letters() {
    assert_eq!(to_lower_ascii("ALLOW"), "allow");
    assert_eq!(to_lower_ascii("Deny 80/TCP"), "deny 80/tcp");
    assert_eq!(to_lower_ascii("already"), "already");
}

#[test]
fn octal_renders_permission_bits() {
    assert_eq!(u32_to_octal_string(0o644), "644");
    assert_eq!(u32_to_octal_string(0o755), "755");
    assert_eq!(u32_to_octal_string(0), "0");
    assert_eq!(u32_to_octal_string(0o7), "7");
}

#[test]
fn containment_and_affix_checks() {
    assert!(contains_str("Status: active\n", "Status: active"));
    assert!(!contains_str("Status: inactive\n", "Status: active\n"));
    assert!(starts_with_str("/home/u", "/home/"));
    assert!(!starts_with_str("/homework", "/home/"));
    assert!(ends_with_str("db.json", ".json"));
    assert!(!ends_with_str("db.jsonx", ".json"));
}
