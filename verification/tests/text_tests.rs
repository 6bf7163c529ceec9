use bayou::text::{
    chars_of, eq_ignore_ascii_case, i64_to_decimal, join, remove_char, remove_pattern,
    split_on_char, split_once_char, string_from_chars, strip_prefix, u64_to_decimal,
};

#[test]
fn eq_ignore_ascii_case_cases() {
    assert!(eq_ignore_ascii_case("Example.COM", "example.com"));
    assert!(!eq_ignore_ascii_case("example.com", "example.org"));
    assert!(!eq_ignore_ascii_case("abc", "abcd"));
    assert!(!eq_ignore_ascii_case("Ä", "ä"));
    assert!(eq_ignore_ascii_case("", ""));
    assert!(!eq_ignore_ascii_case("[", "{"));
}

#[test]
fn eq_ignore_ascii_case_is_symmetric_and_transitive() {
    let a = "HeLLo";
    let b = "hello";
    let c = "HELLO";
    assert_eq!(eq_ignore_ascii_case(a, b), eq_ignore_ascii_case(b, a));
    assert!(eq_ignore_ascii_case(a, b) && eq_ignore_ascii_case(b, c) && eq_ignore_ascii_case(a, c));
}

#[test]
fn strip_prefix_cases() {
    assert_eq!(strip_prefix("acct:bob", "acct:"), Some("bob".to_string()));
    assert_eq!(strip_prefix("acct", "acct:"), None);
    assert_eq!(strip_prefix("xacct:bob", "acct:"), None);
    assert_eq!(strip_prefix("héllo", "hé"), Some("llo".to_string()));
}

#[test]
fn split_matches_std() {
    for s in ["a,b,,c", "", ",", "abc", "a,", ",a"] {
        let expected: Vec<String> = s.split(',').map(|x| x.to_string()).collect();
        assert_eq!(split_on_char(s, ','), expected);
    }
}

#[test]
fn split_once_matches_std() {
    for s in ["k=v=w", "=v", "k=", "kv"] {
        let expected = s.split_once('=').map(|(a, b)| (a.to_string(), b.to_string()));
        assert_eq!(split_once_char(s, '='), expected);
    }
}

#[test]
fn remove_char_matches_std() {
    assert_eq!(remove_char("\"a\"b\"", '"'), "\"a\"b\"".replace('"', ""));
}

#[test]
fn remove_pattern_matches_std() {
    let p = "/[^A-Za-z]/";
    for s in ["a/[^A-Za-z]/b", "/[^A-Za-z]//[^A-Za-z]/", "plain", "/[^A-Za-z", ""] {
        assert_eq!(remove_pattern(s, p), s.replace(p, ""));
    }
    assert_eq!(remove_pattern("aaa", "aa"), "aaa".replace("aa", ""));
}

#[test]
fn join_matches_std() {
    let parts = vec!["a".to_string(), "".to_string(), "c".to_string()];
    assert_eq!(join(&parts, "\n"), parts.join("\n"));
    assert_eq!(join(&Vec::new(), ", "), "");
}

#[test]
fn decimal_matches_std() {
    for n in [0i64, 7, 10, 99, 100, -1, -10, i64::MAX, i64::MIN] {
        assert_eq!(i64_to_decimal(n), n.to_string());
    }
    assert_eq!(u64_to_decimal(u64::MAX), u64::MAX.to_string());
}

#[test]
fn chars_round_trip() {
    let s = "añb€";
    assert_eq!(string_from_chars(&chars_of(s)), s);
}
