//! The lines the host says.

use crate::markup::{
    bold_safe, bold_safe_text, builder_build, builder_new, builder_push, mention, mention_text,
    ChannelRef,
};
use crate::question::{Question, QuestionView};
use crate::session::Outcome;
use vstd::prelude::*;
use vstd::string::*;

verus! {

/// The line that gives away the answer of a question left unanswered.
pub open spec fn reveal_text(answer: Seq<char>) -> Seq<char> {
    "The correct answer was "@ + answer + ".\n"@
}

/// The line that poses a question: category, value to show, and the clue.
pub open spec fn question_text(question: QuestionView) -> Seq<char> {
    "The category is "@ + question.category + ", for "@ + question.display_value() + ": "@
        + question.question
}

/// The reply to a request for a new question: the answer of the question
/// that was still open, if one was, and then the new question.
pub open spec fn opening_text(previous: Option<QuestionView>, next: QuestionView) -> Seq<char> {
    match previous {
        Some(left_open) => reveal_text(left_open.answer) + question_text(next),
        None => question_text(next),
    }
}

/// The reply to an answer attempt.
pub open spec fn outcome_text(outcome: Outcome) -> Seq<char> {
    match outcome {
        Outcome::Correct => "That's it!"@,
        Outcome::Incorrect => "Sorry, that's incorrect."@,
        Outcome::NoActiveQuestion => "I haven't given you a question yet. Cool your jets"@,
    }
}

/// The diagnostic line around an author already set in bold and a channel
/// already written as a mention.
pub open spec fn diagnostic_line_text(bold_author: Seq<char>, channel_mention: Seq<char>) -> Seq<
    char,
> {
    "User "@ + bold_author + " used the 'ping' command in the "@ + channel_mention + " channel"@
}

/// The reply to a message that is for the host but holds no known command:
/// it names the sender, in bold and made safe, and mentions the channel.
pub open spec fn diagnostic_text(author: Seq<char>, channel: ChannelRef) -> Seq<char> {
    diagnostic_line_text(bold_safe_text(author), mention_text(channel))
}

/// Writes the reply to a request for a new question.
pub fn opening_reply(previous: &Option<Question>, next: &Question) -> (text: String)
    ensures
        text@ == opening_text(previous.deep_view(), next@),
{
    let mut builder = builder_new();
    match previous {
        Some(left_open) => {
            builder_push(&mut builder, "The correct answer was ");
            builder_push(&mut builder, left_open.answer.as_str());
            builder_push(&mut builder, ".\n");
        },
        None => {},
    }
    let value = next.display_value();
    builder_push(&mut builder, "The category is ");
    builder_push(&mut builder, next.category.as_str());
    builder_push(&mut builder, ", for ");
    builder_push(&mut builder, value.as_str());
    builder_push(&mut builder, ": ");
    builder_push(&mut builder, next.question.as_str());
    builder_build(&mut builder)
}

/// The reply to an answer attempt.
pub fn outcome_reply(outcome: Outcome) -> (text: &'static str)
    ensures
        text@ == outcome_text(outcome),
{
    match outcome {
        Outcome::Correct => "That's it!",
        Outcome::Incorrect => "Sorry, that's incorrect.",
        Outcome::NoActiveQuestion => "I haven't given you a question yet. Cool your jets",
    }
}

/// Writes the diagnostic line around a bold author and a channel mention.
pub fn diagnostic_line(bold_author: &str, channel_mention: &str) -> (text: String)
    ensures
        text@ == diagnostic_line_text(bold_author@, channel_mention@),
{
    let mut builder = builder_new();
    builder_push(&mut builder, "User ");
    builder_push(&mut builder, bold_author);
    builder_push(&mut builder, " used the 'ping' command in the ");
    builder_push(&mut builder, channel_mention);
    builder_push(&mut builder, " channel");
    builder_build(&mut builder)
}

/// Writes the reply to a message that holds no known command.
pub fn diagnostic_reply(author: &str, channel: &ChannelRef) -> (text: String)
    ensures
        text@ == diagnostic_text(author@, *channel),
{
    let bold_author = bold_safe(author);
    let channel_mention = mention(channel);
    diagnostic_line(bold_author.as_str(), channel_mention.as_str())
}

} // verus!
