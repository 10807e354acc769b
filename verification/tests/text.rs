use mstarplayer_mqtt_plugin::text::{holds, same_text, split_limited};

fn strings(pieces: &[&str]) -> Vec<String> {
    pieces.iter().map(|piece| piece.to_string()).collect()
}

#[test]
fn split_without_separator_is_one_piece() {
    assert_eq!(split_limited("abc", '/', 4), Some(strings(&["abc"])));
}

#[test]
fn split_of_empty_text_is_one_empty_piece() {
    assert_eq!(split_limited("", '/', 4), Some(strings(&[""])));
}

#[test]
fn split_keeps_empty_pieces() {
    assert_eq!(split_limited("/a//b/", '/', 8), Some(strings(&["", "a", "", "b", ""])));
}

#[test]
fn split_at_the_limit_succeeds() {
    assert_eq!(split_limited("a/b/c/d", '/', 4), Some(strings(&["a", "b", "c", "d"])));
}

#[test]
fn split_over_the_limit_gives_none() {
    assert_eq!(split_limited("a/b/c/d/e", '/', 4), None);
    assert_eq!(split_limited("a", '/', 0), None);
    assert_eq!(split_limited("////////////////", '/', 4), None);
}

#[test]
fn split_counts_characters_not_bytes() {
    assert_eq!(
        split_limited("Zürich/日本語/ü", '/', 4),
        Some(strings(&["Zürich", "日本語", "ü"]))
    );
}

#[test]
fn split_on_another_separator() {
    assert_eq!(split_limited("a/b\nc", '\n', 4), Some(strings(&["a/b", "c"])));
}

#[test]
fn join_of_split_gives_the_text_back() {
    for text in ["", "/", "a/b", "/a//b/", "T/control/P/play", "äö/ü"] {
        let pieces = split_limited(text, '/', 16).unwrap();
        assert_eq!(pieces.join("/"), text);
        assert!(pieces.iter().all(|piece| !piece.contains('/')));
    }
}

#[test]
fn holds_finds_a_character() {
    assert!(holds("a\0b", '\0'));
    assert!(holds("/", '/'));
    assert!(!holds("", '/'));
    assert!(!holds("abc", '/'));
    assert!(holds("日本/語", '/'));
}

#[test]
fn same_text_compares_contents() {
    assert!(same_text("", ""));
    assert!(same_text("control", "control"));
    assert!(!same_text("control", "Control"));
    assert!(!same_text("control", "control "));
    assert!(!same_text("a", ""));
}
