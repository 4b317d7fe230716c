use resvolt::text::{chars, ends_with, equal, first_word, is_whitespace, skip, starts_with, up_to};

#[test]
fn whitespace_is_what_std_says() {
    let mut code: u32 = 0;
    while code <= 0x10FFFF {
        if let Some(c) = char::from_u32(code) {
            assert_eq!(is_whitespace(c), c.is_whitespace(), "U+{:04X}", code);
        }
        code += 1;
    }
}

#[test]
fn chars_are_the_characters() {
    assert_eq!(chars("héllo"), vec!['h', 'é', 'l', 'l', 'o']);
    assert_eq!(chars(""), Vec::<char>::new());
}

#[test]
fn first_word_is_the_first_run_without_whitespace() {
    assert_eq!(first_word("  !ping  now"), Some("!ping".to_string()));
    assert_eq!(first_word("one"), Some("one".to_string()));
    assert_eq!(first_word("é\u{2003}b"), Some("é".to_string()));
    assert_eq!(first_word(" \t\n"), None);
    assert_eq!(first_word(""), None);
}

#[test]
fn first_word_agrees_with_split_whitespace() {
    for text in ["a b", " a", "\u{3000}x\u{a0}y", "!ping", "", "   ", "tab\there"] {
        assert_eq!(first_word(text), text.split_whitespace().next().map(|w| w.to_string()));
    }
}

#[test]
fn up_to_stops_before_the_first_separator() {
    assert_eq!(up_to("channels/abc/messages", '/'), "channels");
    assert_eq!(up_to("/channels", '/'), "");
    assert_eq!(up_to("users", '/'), "users");
    assert_eq!(up_to("", '/'), "");
    for path in ["a/b", "/x", "none", "é/é"] {
        assert_eq!(up_to(path, '/'), path.split('/').next().unwrap());
    }
}

#[test]
fn prefix_and_suffix() {
    assert!(starts_with("/channels/1/messages", "/channels"));
    assert!(!starts_with("channels/1", "/channels"));
    assert!(starts_with("abc", ""));
    assert!(!starts_with("ab", "abc"));
    assert!(ends_with("/channels/1/messages", "/messages"));
    assert!(!ends_with("/channels/1/messages/2", "/messages"));
    assert!(ends_with("abc", ""));
    assert!(!ends_with("bc", "abc"));
    assert!(starts_with("été", "é"));
    assert!(ends_with("été", "é"));
}

#[test]
fn equal_and_skip() {
    assert!(equal("abc", "abc"));
    assert!(!equal("abc", "abd"));
    assert!(!equal("abc", "ab"));
    assert!(equal("", ""));
    assert_eq!(skip("!ping", 1), "ping");
    assert_eq!(skip("éa", 1), "a");
    assert_eq!(skip("ab", 2), "");
    assert_eq!(skip("ab", 0), "ab");
    assert_eq!(skip("ab", 3), "");
}
