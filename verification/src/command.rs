//! From a chat message to a command.
//!
//! A message is for the host only when its first word is `trebek`. Of those,
//! the rules are tried in a fixed order and the first that fits decides.

use crate::text::{
    first_space, join_words, joined, lemma_first_space, lemma_first_space_bounds,
    lemma_join_split, lemma_words_nonempty, same_text, split_words, words,
};
use vstd::prelude::*;
use vstd::string::*;

verus! {

/// What a message asks for.
#[derive(Debug, PartialEq, Eq)]
pub enum Command {
    /// The message is not for the host.
    Ignored,
    /// `trebek jeopardy me`: open a new question.
    NewQuestion,
    /// `trebek what ...`: try the text after `what` as the answer.
    Answer(String),
    /// For the host, but no command it knows.
    Unknown,
}

/// A [`Command`] with its text as a sequence of characters.
pub enum CommandView {
    Ignored,
    NewQuestion,
    Answer(Seq<char>),
    Unknown,
}

impl View for Command {
    type V = CommandView;

    open spec fn view(&self) -> CommandView {
        match self {
            Command::Ignored => CommandView::Ignored,
            Command::NewQuestion => CommandView::NewQuestion,
            Command::Answer(candidate) => CommandView::Answer(candidate@),
            Command::Unknown => CommandView::Unknown,
        }
    }
}

/// Whether a message is for the host: its first word is the keyword.
pub open spec fn addressed(text: Seq<char>) -> bool {
    words(text)[0] == "trebek"@
}

/// The command in a message.
///
/// The rules in order: anything not addressed to the host is ignored; then
/// `jeopardy me` as second and third word; then `what` as second word, with
/// the words after it, joined by single spaces, as the candidate answer;
/// then everything else.
pub open spec fn parsed(text: Seq<char>) -> CommandView {
    let ws = words(text);
    if !addressed(text) {
        CommandView::Ignored
    } else if ws.len() >= 3 && ws[1] == "jeopardy"@ && ws[2] == "me"@ {
        CommandView::NewQuestion
    } else if ws.len() >= 2 && ws[1] == "what"@ {
        CommandView::Answer(joined(ws.skip(2)))
    } else {
        CommandView::Unknown
    }
}

/// The first word of a text is what stands before its first space.
pub proof fn lemma_first_word(text: Seq<char>)
    ensures
        0 <= first_space(text) <= text.len(),
        words(text)[0] == text.take(first_space(text)),
{
    lemma_first_space_bounds(text);
    if first_space(text) == text.len() {
        assert(text.take(text.len() as int) == text);
    }
}

/// Whether `text` is for the host. Looks at the first word only.
pub fn is_addressed(text: &str) -> (yes: bool)
    ensures
        yes == addressed(text@),
{
    let n = text.unicode_len();
    let mut end: usize = 0;
    while end < n && text.get_char(end) != ' '
        invariant
            n == text@.len(),
            end <= n,
            forall|k: int| 0 <= k < end ==> text@[k] != ' ',
        decreases n - end,
    {
        end += 1;
    }
    proof {
        lemma_first_space(text@, end as int);
        lemma_first_word(text@);
    }
    same_text(text.substring_char(0, end), "trebek")
}

/// Reads the command in `text`.
pub fn parse_command(text: &str) -> (command: Command)
    ensures
        command@ == parsed(text@),
{
    if !is_addressed(text) {
        return Command::Ignored;
    }
    let ws = split_words(text);
    proof {
        lemma_words_nonempty(text@);
    }
    if ws.len() >= 3 && same_text(ws[1].as_str(), "jeopardy") && same_text(ws[2].as_str(), "me") {
        Command::NewQuestion
    } else if ws.len() >= 2 && same_text(ws[1].as_str(), "what") {
        Command::Answer(join_words(&ws, 2))
    } else {
        Command::Unknown
    }
}

/// A message that is not addressed to the host is ignored, whatever else it
/// holds, and a message that is addressed never is.
pub proof fn lemma_ignored_iff_not_addressed(text: Seq<char>)
    ensures
        parsed(text) is Ignored <==> !addressed(text),
{
}

/// The first rule wins: a message that begins with the three words
/// `trebek jeopardy me` opens a question, whatever follows them, and reaches
/// no later rule.
pub proof fn lemma_jeopardy_me_opens(tail: Seq<char>)
    requires
        tail.len() == 0 || tail[0] == ' ',
    ensures
        addressed("trebek jeopardy me"@ + tail),
        parsed("trebek jeopardy me"@ + tail) is NewQuestion,
{
    reveal_strlit("trebek jeopardy me");
    reveal_strlit("trebek");
    reveal_strlit("jeopardy");
    reveal_strlit("me");
    let text = "trebek jeopardy me"@ + tail;
    lemma_first_space(text, 6);
    let second = text.skip(7);
    lemma_first_space(second, 8);
    let third = second.skip(9);
    lemma_first_space(third, 2);
    assert(text.take(6) == "trebek"@);
    assert(second.take(8) == "jeopardy"@);
    assert(third.take(2) == "me"@);
    if tail.len() == 0 {
        assert(third == "me"@);
        assert(words(third) == seq![third]);
    } else {
        assert(words(third) == seq!["me"@] + words(third.skip(3)));
    }
    assert(words(second) == seq!["jeopardy"@] + words(third));
    assert(words(text) == seq!["trebek"@] + words(second));
}

/// The second rule takes everything after `trebek what ` as the candidate,
/// character for character: spaces in it, at its end or in a row, stay.
pub proof fn lemma_what_takes_the_rest(rest: Seq<char>)
    ensures
        addressed("trebek what "@ + rest),
        parsed("trebek what "@ + rest) == CommandView::Answer(rest),
{
    reveal_strlit("trebek what ");
    reveal_strlit("trebek");
    reveal_strlit("what");
    reveal_strlit("jeopardy");
    let text = "trebek what "@ + rest;
    lemma_first_space(text, 6);
    let second = text.skip(7);
    lemma_first_space(second, 4);
    assert(text.take(6) == "trebek"@);
    assert(second.take(4) == "what"@);
    assert(second.skip(5) == rest);
    lemma_words_nonempty(rest);
    lemma_join_split(rest);
    assert(words(second) == seq!["what"@] + words(rest));
    assert(words(text) == seq!["trebek"@] + words(second));
    assert(words(text).skip(2) == words(rest));
    assert("what"@.len() != "jeopardy"@.len());
}

} // verus!
