use civ5_p2p::words::{is_whitespace, split_words};

#[test]
fn empty_line_has_no_words() {
    assert_eq!(split_words(""), Vec::<String>::new());
}

#[test]
fn blank_line_has_no_words() {
    assert_eq!(split_words("  \t \r\n"), Vec::<String>::new());
}

#[test]
fn single_word() {
    assert_eq!(split_words("bootstrap"), vec!["bootstrap".to_string()]);
}

#[test]
fn words_are_cut_at_any_run_of_whitespace() {
    assert_eq!(
        split_words("  bootstrap \t peerX\n\n/ip4/1.2.3.4/tcp/5  "),
        vec!["bootstrap".to_string(), "peerX".to_string(), "/ip4/1.2.3.4/tcp/5".to_string()]
    );
}

#[test]
fn form_feed_and_carriage_return_cut() {
    assert_eq!(
        split_words("a\x0Cb\rc"),
        vec!["a".to_string(), "b".to_string(), "c".to_string()]
    );
}

#[test]
fn other_whitespace_does_not_cut() {
    // No-break space and vertical tab are no ASCII whitespace.
    assert_eq!(split_words("a\u{00A0}b"), vec!["a\u{00A0}b".to_string()]);
    assert_eq!(split_words("a\x0Bb"), vec!["a\x0Bb".to_string()]);
}

#[test]
fn words_may_hold_any_other_character() {
    assert_eq!(
        split_words("grüße  日本語 ok"),
        vec!["grüße".to_string(), "日本語".to_string(), "ok".to_string()]
    );
}

#[test]
fn split_agrees_with_std() {
    let lines = ["", " ", "a", " a", "a ", "a b", "\ta\nb\rc\x0Cd ", "bootstrap  x   y z", "é ü"];
    for line in lines {
        let expected: Vec<String> = line.split_ascii_whitespace().map(String::from).collect();
        assert_eq!(split_words(line), expected);
    }
}

#[test]
fn whitespace_characters() {
    for c in [' ', '\t', '\n', '\x0C', '\r'] {
        assert!(is_whitespace(c));
    }
    for c in ['a', '0', '/', '\x0B', '\u{00A0}', '\u{2003}', '\0'] {
        assert!(!is_whitespace(c));
    }
}
