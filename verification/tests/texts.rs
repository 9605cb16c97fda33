use hive_metastore_cli::text::{chars_of, ends_with, is_blank_text};

#[test]
fn blank_texts() {
    for s in ["", " ", "   ", "\t", "\n", "\r\n", " \t\n\r", "\u{a0}", "\u{3000}", "\u{2028} \u{85}"] {
        assert!(is_blank_text(s), "{:?}", s);
        assert!(s.trim().is_empty());
    }
}

#[test]
fn texts_that_are_not_blank() {
    for s in ["a", " a", "a ", " a ", "\u{200b}", "  .  ", "select 1", "\n\n-\n", "越"] {
        assert!(!is_blank_text(s), "{:?}", s);
        assert!(!s.trim().is_empty());
    }
}

#[test]
fn endings() {
    assert!(ends_with("", ""));
    assert!(ends_with("a", ""));
    assert!(ends_with("a", "a"));
    assert!(ends_with("hello", "llo"));
    assert!(ends_with("hello", "hello"));
    assert!(ends_with("héllo wörld", "wörld"));
    assert!(ends_with("表不存在", "存在"));
    assert!(!ends_with("", "a"));
    assert!(!ends_with("a", "b"));
    assert!(!ends_with("hello", "hell"));
    assert!(!ends_with("llo", "hello"));
    assert!(!ends_with("hello", "Llo"));
    assert!(!ends_with("héllo", "hello"));
}

#[test]
fn endings_agree_with_std() {
    let texts = ["", "a", "ab", "ba", "aba", "é", "aé", "éa", "NoSuchObjectException", "x y"];
    for t in texts {
        for s in texts {
            assert_eq!(ends_with(t, s), t.ends_with(s), "{:?} {:?}", t, s);
        }
    }
}

#[test]
fn characters_in_order() {
    assert_eq!(chars_of(""), vec![]);
    assert_eq!(chars_of("abc"), vec!['a', 'b', 'c']);
    assert_eq!(chars_of("é越 "), vec!['é', '越', ' ']);
}
