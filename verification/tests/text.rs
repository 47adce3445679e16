use lyra::text::{eq_ignore_ascii_case, is_blank, replace, str_eq, trim_str};

#[test]
fn trim_follows_str_trim() {
    for s in ["  a b  ", "\t\n x\r\n", "", "   ", "\u{a0}y\u{3000}", "z"] {
        assert_eq!(trim_str(s), s.trim(), "{s:?}");
        assert_eq!(is_blank(s), s.trim().is_empty());
    }
}

#[test]
fn ascii_case_insensitive_equality() {
    assert!(eq_ignore_ascii_case("Agent", "aGENT"));
    assert!(!eq_ignore_ascii_case("Agent", "Agents"));
    assert!(!eq_ignore_ascii_case("é", "É"));
    assert!(str_eq("a", "a"));
    assert!(!str_eq("a", "A"));
}

#[test]
fn replace_follows_str_replace() {
    for (s, p, r) in [("aaa", "aa", "b"), ("{x}{x}", "{x}", "yy"), ("none", "{x}", "q"), ("", "a", "b")] {
        assert_eq!(replace(s, p, r), s.replace(p, r));
    }
}
