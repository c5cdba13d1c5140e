use rn_bindgen::text::{str_eq, text_lt, trim_backticks_exec};

#[test]
fn str_eq_compares_characters() {
    assert!(str_eq("abc", "abc"));
    assert!(str_eq("", ""));
    assert!(!str_eq("abc", "abd"));
    assert!(!str_eq("ab", "abc"));
}

#[test]
fn text_lt_is_the_string_order() {
    let words = ["", "a", "B", "aa", "ab", "b", "ä", "Ab"];
    for x in words {
        for y in words {
            assert_eq!(text_lt(x, y), x.to_string() < y.to_string(), "{x} < {y}");
        }
    }
}

#[test]
fn trim_backticks_matches_trim_matches() {
    for s in ["", "`", "``", "`a`", "a", "`a`b`", "a``", "``a"] {
        assert_eq!(trim_backticks_exec(s), s.trim_matches('`'));
    }
}
