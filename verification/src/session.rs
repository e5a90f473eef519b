//! The one open question that everybody in the chat shares.
//!
//! A session is either closed or holds exactly one open question. It changes
//! only by opening a new question and by a correct answer. The embedding
//! program keeps it behind one lock and calls these methods while holding it,
//! so every history of calls is one of the sequences described here.

use crate::draw::random_index;
use crate::question::{Question, QuestionView};
use crate::text::{lemma_lowercase_idempotent, lowercase, same_ignoring_case};
use vstd::prelude::*;

verus! {

/// How an answer attempt ended.
#[derive(Clone, Copy, Debug, PartialEq, Eq, Structural)]
pub enum Outcome {
    /// No question was open.
    NoActiveQuestion,
    /// The candidate matched; the question is now closed.
    Correct,
    /// The candidate did not match; the question stays open.
    Incorrect,
}

/// Whether `candidate` is the answer to `question`: the same text once ASCII
/// letter case is set aside, nothing looser.
pub open spec fn answers(question: QuestionView, candidate: Seq<char>) -> bool {
    lowercase(question.answer) == lowercase(candidate)
}

/// The outcome of trying `candidate` against `current`.
pub open spec fn judged(current: Option<QuestionView>, candidate: Seq<char>) -> Outcome {
    match current {
        None => Outcome::NoActiveQuestion,
        Some(question) => if answers(question, candidate) {
            Outcome::Correct
        } else {
            Outcome::Incorrect
        },
    }
}

/// The open question, if any, after trying `candidate` against `current`.
pub open spec fn after_attempt(current: Option<QuestionView>, candidate: Seq<char>) -> Option<
    QuestionView,
> {
    match judged(current, candidate) {
        Outcome::Incorrect => current,
        _ => None,
    }
}

/// The outcomes of trying `candidates` one after another, starting from `current`.
pub open spec fn outcomes_in_turn(current: Option<QuestionView>, candidates: Seq<Seq<char>>) -> Seq<
    Outcome,
>
    decreases candidates.len(),
{
    if candidates.len() == 0 {
        Seq::empty()
    } else {
        seq![judged(current, candidates[0])] + outcomes_in_turn(
            after_attempt(current, candidates[0]),
            candidates.drop_first(),
        )
    }
}

/// The open question, if any, after trying `candidates` one after another.
pub open spec fn after_attempts(current: Option<QuestionView>, candidates: Seq<Seq<char>>) -> Option<
    QuestionView,
>
    decreases candidates.len(),
{
    if candidates.len() == 0 {
        current
    } else {
        after_attempts(after_attempt(current, candidates[0]), candidates.drop_first())
    }
}

/// The session: the currently open question, or none.
pub struct SessionState {
    current: Option<Question>,
}

impl View for SessionState {
    type V = Option<QuestionView>;

    closed spec fn view(&self) -> Option<QuestionView> {
        self.current.deep_view()
    }
}

impl SessionState {
    /// A session with no open question.
    pub fn new() -> (session: SessionState)
        ensures
            session@ is None,
    {
        SessionState { current: None }
    }

    /// The open question, if there is one.
    pub fn current(&self) -> (open: Option<&Question>)
        ensures
            open.deep_view() == self@,
    {
        self.current.as_ref()
    }

    /// Opens the question at `index` of `corpus`, whether or not one was open.
    ///
    /// Returns the question that was open before, if any, and a copy of the
    /// new one.
    pub fn open_at(&mut self, corpus: &Vec<Question>, index: usize) -> (turn: (
        Option<Question>,
        Question,
    ))
        requires
            index < corpus.len(),
        ensures
            turn.0.deep_view() == old(self)@,
            turn.1@ == corpus.deep_view()[index as int],
            final(self)@ == Some(corpus.deep_view()[index as int]),
    {
        let previous = self.current.take();
        let next = corpus[index].clone();
        self.current = Some(next.clone());
        (previous, next)
    }

    /// Opens a question drawn at random from `corpus`, each draw independent
    /// of the ones before it, so a question may come again.
    ///
    /// Returns the question that was open before, if any, and a copy of the
    /// new one, which is the one now open.
    pub fn open_new_question(&mut self, corpus: &Vec<Question>) -> (turn: (
        Option<Question>,
        Question,
    ))
        requires
            corpus.len() > 0,
        ensures
            turn.0.deep_view() == old(self)@,
            corpus.deep_view().contains(turn.1@),
            final(self)@ == Some(turn.1@),
    {
        let index = random_index(corpus.len());
        self.open_at(corpus, index)
    }

    /// Tries `candidate` against the open question.
    ///
    /// With no question open nothing changes. A match closes the question,
    /// for everyone; a mismatch leaves it open.
    pub fn attempt_answer(&mut self, candidate: &str) -> (outcome: Outcome)
        ensures
            outcome == judged(old(self)@, candidate@),
            final(self)@ == after_attempt(old(self)@, candidate@),
            outcome == Outcome::NoActiveQuestion <==> old(self)@ is None,
    {
        match &self.current {
            None => Outcome::NoActiveQuestion,
            Some(question) => {
                if same_ignoring_case(question.answer.as_str(), candidate) {
                    self.current = None;
                    Outcome::Correct
                } else {
                    Outcome::Incorrect
                }
            },
        }
    }
}

/// Two candidates that differ only in ASCII letter case are judged alike and
/// leave the session in the same state.
pub proof fn lemma_case_does_not_matter(
    current: Option<QuestionView>,
    first: Seq<char>,
    second: Seq<char>,
)
    requires
        lowercase(first) == lowercase(second),
    ensures
        judged(current, first) == judged(current, second),
        after_attempt(current, first) == after_attempt(current, second),
{
}

/// Writing a candidate in small letters throughout does not change how it
/// is judged, nor what it does to the session.
pub proof fn lemma_folding_keeps_outcome(current: Option<QuestionView>, candidate: Seq<char>)
    ensures
        judged(current, lowercase(candidate)) == judged(current, candidate),
        after_attempt(current, lowercase(candidate)) == after_attempt(current, candidate),
{
    lemma_lowercase_idempotent(candidate);
}

/// Once no question is open, every further attempt finds none.
pub proof fn lemma_closed_stays_closed(candidates: Seq<Seq<char>>)
    ensures
        after_attempts(None, candidates) is None,
        outcomes_in_turn(None, candidates).len() == candidates.len(),
        forall|i: int|
            0 <= i < candidates.len() ==> outcomes_in_turn(None, candidates)[i]
                == Outcome::NoActiveQuestion,
    decreases candidates.len(),
{
    if candidates.len() > 0 {
        let rest = candidates.drop_first();
        lemma_closed_stays_closed(rest);
        assert forall|i: int| 0 <= i < candidates.len() implies outcomes_in_turn(
            None,
            candidates,
        )[i] == Outcome::NoActiveQuestion by {
            if i > 0 {
                assert(outcomes_in_turn(None, candidates)[i] == outcomes_in_turn(None, rest)[i
                    - 1]);
            }
        }
    }
}

/// When several correct answers to one open question are taken one after
/// another, in whatever order the lock admits them, the first wins and every
/// later one finds no question: exactly one `Correct`.
pub proof fn lemma_one_winner(question: QuestionView, candidates: Seq<Seq<char>>)
    requires
        candidates.len() > 0,
        forall|i: int| 0 <= i < candidates.len() ==> answers(question, #[trigger] candidates[i]),
    ensures
        outcomes_in_turn(Some(question), candidates).len() == candidates.len(),
        outcomes_in_turn(Some(question), candidates)[0] == Outcome::Correct,
        forall|i: int|
            1 <= i < candidates.len() ==> outcomes_in_turn(Some(question), candidates)[i]
                == Outcome::NoActiveQuestion,
        after_attempts(Some(question), candidates) is None,
{
    let rest = candidates.drop_first();
    lemma_closed_stays_closed(rest);
    assert(answers(question, candidates[0]));
    assert forall|i: int| 1 <= i < candidates.len() implies outcomes_in_turn(
        Some(question),
        candidates,
    )[i] == Outcome::NoActiveQuestion by {
        assert(outcomes_in_turn(Some(question), candidates)[i] == outcomes_in_turn(None, rest)[i
            - 1]);
    }
}

/// Whatever is tried, and against whatever state, at most one attempt in a
/// row of attempts is `Correct`.
pub proof fn lemma_at_most_one_correct(
    current: Option<QuestionView>,
    candidates: Seq<Seq<char>>,
    i: int,
    j: int,
)
    requires
        0 <= i < j < candidates.len(),
    ensures
        !(outcomes_in_turn(current, candidates)[i] == Outcome::Correct && outcomes_in_turn(
            current,
            candidates,
        )[j] == Outcome::Correct),
    decreases candidates.len(),
{
    let rest = candidates.drop_first();
    let next = after_attempt(current, candidates[0]);
    lemma_outcomes_len(next, rest);
    assert(outcomes_in_turn(current, candidates)[j] == outcomes_in_turn(next, rest)[j - 1]);
    if i == 0 {
        if judged(current, candidates[0]) == Outcome::Correct {
            lemma_closed_stays_closed(rest);
        }
    } else {
        assert(outcomes_in_turn(current, candidates)[i] == outcomes_in_turn(next, rest)[i - 1]);
        lemma_at_most_one_correct(next, rest, i - 1, j - 1);
    }
}

/// Every attempt has an outcome.
pub proof fn lemma_outcomes_len(current: Option<QuestionView>, candidates: Seq<Seq<char>>)
    ensures
        outcomes_in_turn(current, candidates).len() == candidates.len(),
    decreases candidates.len(),
{
    if candidates.len() > 0 {
        lemma_outcomes_len(after_attempt(current, candidates[0]), candidates.drop_first());
    }
}

} // verus!
