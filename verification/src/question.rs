//! One trivia question, as the corpus holds it.

use vstd::prelude::*;
use vstd::string::*;

verus! {

/// A question of the corpus. It is read, copied and shown, never changed.
#[derive(Debug, PartialEq, Eq)]
pub struct Question {
    pub category: String,
    pub air_date: String,
    pub question: String,
    pub value: Option<String>,
    pub answer: String,
    pub round: String,
    pub show_number: String,
}

/// What a [`Question`] says, as plain text.
pub struct QuestionView {
    pub category: Seq<char>,
    pub air_date: Seq<char>,
    pub question: Seq<char>,
    pub value: Option<Seq<char>>,
    pub answer: Seq<char>,
    pub round: Seq<char>,
    pub show_number: Seq<char>,
}

impl QuestionView {
    /// The value to show: the question's own, or `$200` when it has none.
    pub open spec fn display_value(self) -> Seq<char> {
        match self.value {
            Some(value) => value,
            None => "$200"@,
        }
    }
}

impl View for Question {
    type V = QuestionView;

    open spec fn view(&self) -> QuestionView {
        QuestionView {
            category: self.category@,
            air_date: self.air_date@,
            question: self.question@,
            value: match self.value {
                Some(value) => Some(value@),
                None => None,
            },
            answer: self.answer@,
            round: self.round@,
            show_number: self.show_number@,
        }
    }
}

impl DeepView for Question {
    type V = QuestionView;

    open spec fn deep_view(&self) -> QuestionView {
        self@
    }
}

impl Clone for Question {
    fn clone(&self) -> (copy: Question)
        ensures
            copy@ == self@,
    {
        Question {
            category: self.category.clone(),
            air_date: self.air_date.clone(),
            question: self.question.clone(),
            value: match &self.value {
                Some(value) => Some(value.clone()),
                None => None,
            },
            answer: self.answer.clone(),
            round: self.round.clone(),
            show_number: self.show_number.clone(),
        }
    }
}

impl Question {
    /// The value to show for this question: its own, or `$200` when the
    /// source gave none.
    pub fn display_value(&self) -> (shown: String)
        ensures
            shown@ == self@.display_value(),
    {
        match &self.value {
            Some(value) => value.clone(),
            None => "$200".to_owned(),
        }
    }
}

} // verus!
