//! The dispatcher: one chat message in, one reaction out.
//!
//! The handler owns the corpus and never changes it. The session is handed
//! in by the caller, who holds its lock for the length of the call and sends
//! the reply after releasing it.

use crate::command::{addressed, parse_command, parsed, Command, CommandView};
use crate::draw::random_index;
use crate::question::{Question, QuestionView};
use crate::reply::{opening_reply, opening_text, outcome_reply, outcome_text};
use crate::session::{after_attempt, judged, SessionState};
use vstd::prelude::*;
use vstd::string::*;

verus! {

/// What the caller is to do about a message.
#[derive(Debug, PartialEq, Eq)]
pub enum Reaction {
    /// Nothing: the message was not for the host.
    Ignore,
    /// Send this text to the channel the message came from.
    Say(String),
    /// The message held no known command: look the channel up and send the
    /// diagnostic line, or log the failure of the lookup and send nothing.
    Diagnose,
}

/// A [`Reaction`] with its text as a sequence of characters.
pub enum ReactionView {
    Ignore,
    Say(Seq<char>),
    Diagnose,
}

impl View for Reaction {
    type V = ReactionView;

    open spec fn view(&self) -> ReactionView {
        match self {
            Reaction::Ignore => ReactionView::Ignore,
            Reaction::Say(text) => ReactionView::Say(text@),
            Reaction::Diagnose => ReactionView::Diagnose,
        }
    }
}

/// The reaction to `command` when `current` is the open question and a
/// request for a new question draws the question at `draw`.
pub open spec fn reaction(
    current: Option<QuestionView>,
    corpus: Seq<QuestionView>,
    command: CommandView,
    draw: int,
) -> ReactionView {
    match command {
        CommandView::Ignored => ReactionView::Ignore,
        CommandView::NewQuestion => ReactionView::Say(opening_text(current, corpus[draw])),
        CommandView::Answer(candidate) => ReactionView::Say(
            outcome_text(judged(current, candidate)),
        ),
        CommandView::Unknown => ReactionView::Diagnose,
    }
}

/// The open question, if any, once `command` has been carried out.
pub open spec fn session_after(
    current: Option<QuestionView>,
    corpus: Seq<QuestionView>,
    command: CommandView,
    draw: int,
) -> Option<QuestionView> {
    match command {
        CommandView::NewQuestion => Some(corpus[draw]),
        CommandView::Answer(candidate) => after_attempt(current, candidate),
        _ => current,
    }
}

/// The open question, if any, after the commands of `commands` have been
/// carried out one after another, the i-th with the draw `draws[i]`.
pub open spec fn session_after_all(
    current: Option<QuestionView>,
    corpus: Seq<QuestionView>,
    commands: Seq<CommandView>,
    draws: Seq<int>,
) -> Option<QuestionView>
    decreases commands.len(),
{
    if commands.len() == 0 {
        current
    } else {
        session_after(
            session_after_all(current, corpus, commands.drop_last(), draws),
            corpus,
            commands.last(),
            draws[commands.len() - 1],
        )
    }
}

/// The dispatcher, with the corpus it draws questions from.
pub struct Handler {
    questions: Vec<Question>,
}

impl Handler {
    /// The questions of the corpus, in the order they were given.
    pub closed spec fn corpus(&self) -> Seq<QuestionView> {
        self.questions.deep_view()
    }

    /// A handler over `questions`.
    pub fn new(questions: Vec<Question>) -> (handler: Handler)
        ensures
            handler.corpus() == questions.deep_view(),
    {
        Handler { questions }
    }

    /// How many questions the corpus holds.
    pub fn count(&self) -> (count: usize)
        ensures
            count == self.corpus().len(),
    {
        self.questions.len()
    }

    /// Carries out `command`, opening the question at `draw` if a new
    /// question is asked for, and says what to reply.
    pub fn react(&self, session: &mut SessionState, command: Command, draw: usize) -> (reaction:
        Reaction)
        requires
            command is NewQuestion ==> draw < self.corpus().len(),
        ensures
            reaction@ == self::reaction(old(session)@, self.corpus(), command@, draw as int),
            final(session)@ == session_after(old(session)@, self.corpus(), command@, draw as int),
    {
        match command {
            Command::Ignored => Reaction::Ignore,
            Command::NewQuestion => {
                let (previous, next) = session.open_at(&self.questions, draw);
                Reaction::Say(opening_reply(&previous, &next))
            },
            Command::Answer(candidate) => {
                let outcome = session.attempt_answer(candidate.as_str());
                Reaction::Say(outcome_reply(outcome).to_owned())
            },
            Command::Unknown => Reaction::Diagnose,
        }
    }

    /// Handles one chat message.
    ///
    /// A message that is not addressed to the host gets no reply and changes
    /// nothing. A request for a new question draws one at random, so the
    /// reply is the one for some question of the corpus. Everything else is
    /// decided by the message and the session alone.
    pub fn message(&self, session: &mut SessionState, content: &str) -> (reaction: Reaction)
        requires
            parsed(content@) is NewQuestion ==> self.corpus().len() > 0,
        ensures
            !addressed(content@) ==> reaction@ is Ignore && final(session)@ == old(session)@,
            addressed(content@) ==> !(reaction@ is Ignore),
            parsed(content@) is NewQuestion ==> exists|draw: int|
                0 <= draw < self.corpus().len() && reaction@ == #[trigger] self::reaction(
                    old(session)@,
                    self.corpus(),
                    parsed(content@),
                    draw,
                ) && final(session)@ == session_after(
                    old(session)@,
                    self.corpus(),
                    parsed(content@),
                    draw,
                ),
            !(parsed(content@) is NewQuestion) ==> reaction@ == self::reaction(
                old(session)@,
                self.corpus(),
                parsed(content@),
                0,
            ) && final(session)@ == session_after(
                old(session)@,
                self.corpus(),
                parsed(content@),
                0,
            ),
    {
        let command = parse_command(content);
        let draw = match command {
            Command::NewQuestion => random_index(self.questions.len()),
            _ => 0,
        };
        self.react(session, command, draw)
    }
}

/// A message that is not addressed to the host draws no reply and leaves the
/// session as it was, whatever the message holds.
pub proof fn lemma_unaddressed_changes_nothing(
    current: Option<QuestionView>,
    corpus: Seq<QuestionView>,
    text: Seq<char>,
    draw: int,
)
    requires
        !addressed(text),
    ensures
        reaction(current, corpus, parsed(text), draw) is Ignore,
        session_after(current, corpus, parsed(text), draw) == current,
{
}

/// Any number of ignored messages in a row leave the session as it was.
pub proof fn lemma_ignoring_is_idempotent(
    current: Option<QuestionView>,
    corpus: Seq<QuestionView>,
    commands: Seq<CommandView>,
    draws: Seq<int>,
)
    requires
        forall|i: int| 0 <= i < commands.len() ==> #[trigger] commands[i] is Ignored,
    ensures
        session_after_all(current, corpus, commands, draws) == current,
    decreases commands.len(),
{
    if commands.len() > 0 {
        let before = commands.drop_last();
        assert forall|i: int| 0 <= i < before.len() implies #[trigger] before[i] is Ignored by {
            assert(before[i] == commands[i]);
        }
        lemma_ignoring_is_idempotent(current, corpus, before, draws);
        assert(commands.last() == commands[commands.len() - 1]);
    }
}

/// After any run of requests for a new question, the open question is the
/// one drawn last, a question of the corpus as it was given: drawing never
/// adds to the corpus, takes from it or rewrites it, and a question may be
/// drawn again.
pub proof fn lemma_openings_draw_from_corpus(
    current: Option<QuestionView>,
    corpus: Seq<QuestionView>,
    commands: Seq<CommandView>,
    draws: Seq<int>,
)
    requires
        commands.len() > 0,
        draws.len() == commands.len(),
        forall|i: int| 0 <= i < commands.len() ==> #[trigger] commands[i] is NewQuestion,
        forall|i: int| 0 <= i < draws.len() ==> 0 <= #[trigger] draws[i] < corpus.len(),
    ensures
        session_after_all(current, corpus, commands, draws) == Some(corpus[draws.last()]),
        corpus.contains(corpus[draws.last()]),
{
    assert(commands.last() is NewQuestion);
    assert(0 <= draws[draws.len() - 1] < corpus.len());
}

} // verus!
