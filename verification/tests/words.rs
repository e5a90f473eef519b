use trebek::text::{join_words, same_ignoring_case, same_text, split_words};

fn owned(words: &[&str]) -> Vec<String> {
    words.iter().map(|w| w.to_string()).collect()
}

#[test]
fn split_cuts_at_every_single_space() {
    assert_eq!(split_words("trebek jeopardy me"), owned(&["trebek", "jeopardy", "me"]));
}

#[test]
fn split_of_empty_text_is_one_empty_word() {
    assert_eq!(split_words(""), owned(&[""]));
}

#[test]
fn split_keeps_empty_words_between_repeated_spaces() {
    assert_eq!(split_words("a  b"), owned(&["a", "", "b"]));
    assert_eq!(split_words(" a"), owned(&["", "a"]));
    assert_eq!(split_words("a "), owned(&["a", ""]));
    assert_eq!(split_words(" "), owned(&["", ""]));
}

#[test]
fn split_does_not_cut_at_other_whitespace() {
    assert_eq!(split_words("a\tb\nc"), owned(&["a\tb\nc"]));
}

#[test]
fn split_counts_characters_not_bytes() {
    assert_eq!(split_words("né à"), owned(&["né", "à"]));
    assert_eq!(split_words("日本 語 x"), owned(&["日本", "語", "x"]));
}

#[test]
fn split_agrees_with_the_standard_library() {
    for text in ["", " ", "trebek what is  it ", "x", "  ", "a b c d e", "é ü  ö"] {
        let expected: Vec<String> = text.split(' ').map(|w| w.to_string()).collect();
        assert_eq!(split_words(text), expected);
    }
}

#[test]
fn join_puts_one_space_between_words() {
    let words = owned(&["trebek", "what", "the", "Eiffel", "Tower"]);
    assert_eq!(join_words(&words, 2), "the Eiffel Tower");
    assert_eq!(join_words(&words, 0), "trebek what the Eiffel Tower");
    assert_eq!(join_words(&words, 4), "Tower");
}

#[test]
fn join_of_nothing_is_empty() {
    let words = owned(&["trebek", "what"]);
    assert_eq!(join_words(&words, 2), "");
    assert_eq!(join_words(&Vec::new(), 0), "");
}

#[test]
fn join_keeps_empty_words() {
    let words = owned(&["a", "", "b", ""]);
    assert_eq!(join_words(&words, 0), "a  b ");
    assert_eq!(join_words(&words, 3), "");
}

#[test]
fn join_undoes_split() {
    for text in ["", " ", "trebek what is  it ", "x", "  ", "a b c d e", "é ü  ö"] {
        assert_eq!(join_words(&split_words(text), 0), text);
    }
}

#[test]
fn case_of_ascii_letters_is_set_aside() {
    assert!(same_ignoring_case("PARIS", "paris"));
    assert!(same_ignoring_case("Paris", "pARIS"));
    assert!(same_ignoring_case("", ""));
    assert!(same_ignoring_case("a1 b2", "A1 B2"));
}

#[test]
fn comparison_is_exact_apart_from_case() {
    assert!(!same_ignoring_case("paris", "pariss"));
    assert!(!same_ignoring_case("paris", " paris"));
    assert!(!same_ignoring_case("paris", "pari"));
    assert!(!same_ignoring_case("a b", "a  b"));
}

#[test]
fn case_of_other_letters_is_kept() {
    assert!(!same_ignoring_case("É", "é"));
    assert!(same_ignoring_case("Évian", "ÉVIAN"));
    assert!(!same_ignoring_case("[", "{"));
    assert!(!same_ignoring_case("@", "`"));
}

#[test]
fn same_text_is_exact() {
    assert!(same_text("trebek", "trebek"));
    assert!(!same_text("trebek", "Trebek"));
    assert!(!same_text("trebek", "trebek "));
}
