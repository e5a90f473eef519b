use trebek::question::Question;
use trebek::session::{Outcome, SessionState};

fn question(category: &str, answer: &str, value: Option<&str>) -> Question {
    Question {
        category: category.to_string(),
        air_date: "2004-12-31".to_string(),
        question: format!("clue about {}", answer),
        value: value.map(|v| v.to_string()),
        answer: answer.to_string(),
        round: "Jeopardy!".to_string(),
        show_number: "4680".to_string(),
    }
}

fn corpus() -> Vec<Question> {
    vec![
        question("CAPITALS", "Paris", Some("$400")),
        question("SCIENCE", "Photosynthesis", None),
        question("HISTORY", "Napoleon Bonaparte", Some("$1,000")),
    ]
}

#[test]
fn a_new_session_has_no_question() {
    let session = SessionState::new();
    assert!(session.current().is_none());
}

#[test]
fn no_active_question_exactly_when_none_is_open() {
    let corpus = corpus();
    let mut session = SessionState::new();
    assert_eq!(session.attempt_answer("Paris"), Outcome::NoActiveQuestion);
    assert_eq!(session.attempt_answer(""), Outcome::NoActiveQuestion);
    assert!(session.current().is_none());

    session.open_at(&corpus, 0);
    assert_ne!(session.attempt_answer("London"), Outcome::NoActiveQuestion);
    assert_ne!(session.attempt_answer("Paris"), Outcome::NoActiveQuestion);
    assert_eq!(session.attempt_answer("Paris"), Outcome::NoActiveQuestion);
}

#[test]
fn open_at_returns_previous_and_next() {
    let corpus = corpus();
    let mut session = SessionState::new();

    let (previous, next) = session.open_at(&corpus, 1);
    assert_eq!(previous, None);
    assert_eq!(next, corpus[1]);
    assert_eq!(session.current(), Some(&corpus[1]));

    let (previous, next) = session.open_at(&corpus, 2);
    assert_eq!(previous.as_ref(), Some(&corpus[1]));
    assert_eq!(next, corpus[2]);
    assert_eq!(session.current(), Some(&corpus[2]));
}

#[test]
fn the_same_question_may_be_opened_again() {
    let corpus = corpus();
    let mut session = SessionState::new();
    session.open_at(&corpus, 0);
    let (previous, next) = session.open_at(&corpus, 0);
    assert_eq!(previous.as_ref(), Some(&corpus[0]));
    assert_eq!(next, corpus[0]);
}

#[test]
fn a_random_opening_draws_from_the_corpus() {
    let corpus = corpus();
    let before = corpus.clone();
    let mut session = SessionState::new();
    let mut last: Option<Question> = None;
    for _ in 0..200 {
        let (previous, next) = session.open_new_question(&corpus);
        assert_eq!(previous, last);
        assert!(corpus.contains(&next));
        assert_eq!(session.current(), Some(&next));
        last = Some(next);
    }
    assert_eq!(corpus, before);
}

#[test]
fn a_random_opening_reaches_every_question() {
    let corpus = corpus();
    let mut session = SessionState::new();
    let mut seen = [false; 3];
    for _ in 0..2000 {
        let (_, next) = session.open_new_question(&corpus);
        let at = corpus.iter().position(|q| *q == next).unwrap();
        seen[at] = true;
    }
    assert_eq!(seen, [true, true, true]);
}

#[test]
fn a_corpus_of_one_always_gives_that_question() {
    let corpus = vec![question("SCIENCE", "Photosynthesis", None)];
    let mut session = SessionState::new();
    for _ in 0..20 {
        let (_, next) = session.open_new_question(&corpus);
        assert_eq!(next, corpus[0]);
    }
}

#[test]
fn answers_match_whatever_the_case() {
    let corpus = corpus();
    for candidate in ["PARIS", "paris", "Paris", "pArIs"] {
        let mut session = SessionState::new();
        session.open_at(&corpus, 0);
        assert_eq!(session.attempt_answer(candidate), Outcome::Correct, "{}", candidate);
        assert!(session.current().is_none());
    }
}

#[test]
fn upper_and_lower_case_are_judged_alike() {
    let corpus = corpus();
    for (upper, lower) in [("PARIS", "paris"), ("LONDON", "london"), ("", "")] {
        let mut first = SessionState::new();
        let mut second = SessionState::new();
        first.open_at(&corpus, 0);
        second.open_at(&corpus, 0);
        assert_eq!(first.attempt_answer(upper), second.attempt_answer(lower));
        assert_eq!(first.current(), second.current());
    }
}

#[test]
fn a_wrong_answer_leaves_the_question_open() {
    let corpus = corpus();
    let mut session = SessionState::new();
    session.open_at(&corpus, 2);
    for candidate in ["Napoleon", "Napoleon  Bonaparte", "Napoleon Bonaparte ", "", "Bonaparte"] {
        assert_eq!(session.attempt_answer(candidate), Outcome::Incorrect, "{:?}", candidate);
        assert_eq!(session.current(), Some(&corpus[2]));
    }
    assert_eq!(session.attempt_answer("napoleon bonaparte"), Outcome::Correct);
    assert!(session.current().is_none());
}

#[test]
fn of_many_correct_answers_one_wins() {
    let corpus = corpus();
    let mut session = SessionState::new();
    session.open_at(&corpus, 0);
    let outcomes: Vec<Outcome> =
        ["paris", "PARIS", "Paris", "paris", "pAris"].iter().map(|c| session.attempt_answer(c)).collect();
    assert_eq!(outcomes[0], Outcome::Correct);
    assert_eq!(outcomes.iter().filter(|o| **o == Outcome::Correct).count(), 1);
    assert_eq!(outcomes.iter().filter(|o| **o == Outcome::NoActiveQuestion).count(), 4);
}

#[test]
fn the_value_shown_falls_back_to_200_dollars() {
    assert_eq!(question("A", "b", None).display_value(), "$200");
    assert_eq!(question("A", "b", Some("$800")).display_value(), "$800");
    assert_eq!(question("A", "b", Some("")).display_value(), "");
}

#[test]
fn a_copy_of_a_question_holds_the_same() {
    let priced = question("CAPITALS", "Paris", Some("$400"));
    assert_eq!(priced.clone(), priced);
    let bare = question("SCIENCE", "Photosynthesis", None);
    assert_eq!(bare.clone(), bare);
}
