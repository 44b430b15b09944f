use civ5_p2p::listening::{contains_text, distinct_texts};

fn texts(items: &[&str]) -> Vec<String> {
    items.iter().map(|s| s.to_string()).collect()
}

#[test]
fn distinct_of_nothing() {
    assert_eq!(distinct_texts(&Vec::new()), Vec::<String>::new());
}

#[test]
fn distinct_keeps_first_occurrences_in_order() {
    assert_eq!(
        distinct_texts(&texts(&["b", "a", "b", "c", "a", "a"])),
        texts(&["b", "a", "c"])
    );
}

#[test]
fn distinct_leaves_distinct_texts_alone() {
    assert_eq!(distinct_texts(&texts(&["x", "y", "z"])), texts(&["x", "y", "z"]));
}

#[test]
fn distinct_of_one_text_repeated() {
    assert_eq!(distinct_texts(&texts(&["x", "x", "x"])), texts(&["x"]));
}

#[test]
fn contains_finds_what_is_there() {
    let all = texts(&["x", "y"]);
    assert!(contains_text(&all, &"x".to_string()));
    assert!(contains_text(&all, &"y".to_string()));
    assert!(!contains_text(&all, &"z".to_string()));
    assert!(!contains_text(&all, &"".to_string()));
    assert!(!contains_text(&Vec::new(), &"x".to_string()));
}
