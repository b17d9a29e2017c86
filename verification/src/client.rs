//! The conversation engine: it reads the command of an inbound message,
//! changes the session of the sender and answers with one reply.

use crate::clock::current_year;
use crate::puzzle::Puzzle;
use crate::reply::{
    answer_reply, answer_text_for, answered_keyboard, help_reply, help_text, internal_error_reply,
    keyboard_view, no_open_question_reply, question_keyboard, question_reply, question_text_for,
    reset_reply, standard_keyboard, standard_keyboard_view, stats_reply, unknown_reply,
    unknown_text_for, version_reply, version_text, version_text_for, ParseMode, Reply, ReplyView,
};
use crate::session::{SessionStore, SessionView};
use crate::stats::Stats;
use crate::text::{chars_of, first_token, first_token_of, spells, string_of, uppercase_of};
use crate::word_generator::{playable, WordGenerator};
use vstd::prelude::*;

verus! {

/// What an inbound message asks for.
#[derive(Clone, Copy, Debug, PartialEq, Eq)]
pub enum Command {
    /// `/new` or `/next`: ask a new question.
    NewQuestion,
    /// `/A` to `/E`: the choice with this number, counted from zero; the
    /// fifth stands for "none of these".
    Answer(usize),
    /// `/stats`: report the score.
    Stats,
    /// `/reset_stats`: set the score back to zero.
    ResetStats,
    /// `/help`: list the commands.
    Help,
    /// `/version`: name the version.
    Version,
    /// Anything else.
    Unknown,
}

/// The command token of a message: its first token, what stands between
/// the white space at its start, if any, and the next white space or the end.
pub open spec fn command_token(text: Seq<char>) -> Seq<char> {
    first_token(text)
}

/// The command that a token spells, letter for letter.
pub open spec fn command_for(token: Seq<char>) -> Command {
    if token == "/new"@ || token == "/next"@ {
        Command::NewQuestion
    } else if token == "/A"@ {
        Command::Answer(0)
    } else if token == "/B"@ {
        Command::Answer(1)
    } else if token == "/C"@ {
        Command::Answer(2)
    } else if token == "/D"@ {
        Command::Answer(3)
    } else if token == "/E"@ {
        Command::Answer(4)
    } else if token == "/stats"@ {
        Command::Stats
    } else if token == "/reset_stats"@ {
        Command::ResetStats
    } else if token == "/help"@ {
        Command::Help
    } else if token == "/version"@ {
        Command::Version
    } else {
        Command::Unknown
    }
}

/// The command of a message: the one that its command token spells.
pub open spec fn command_of(text: Seq<char>) -> Command {
    command_for(command_token(text))
}

/// The session and the reply after an answer with choice `option`. With a
/// question open the answer is counted, as correct if `option` is the place of
/// the right choice, and the question is closed. With none open nothing
/// changes.
pub open spec fn answer_step(session: SessionView, option: int) -> (SessionView, ReplyView) {
    match session.open_puzzle {
        Some(puzzle) => {
            let correct = puzzle.correct_index == option;
            (session.answered(correct).closed(), answer_reply(correct, puzzle.answer_word))
        },
        None => (session, no_open_question_reply()),
    }
}

/// What a request for a new question may lead to, from the session `before`
/// to the session `after` and the reply. Either a word of the lexicon was
/// drawn and a valid question for its upper-case form is now open and asked;
/// or the lexicon is empty, or a word was drawn that is not playable in upper
/// case: then nothing changes and the reply reports an internal error.
pub open spec fn new_question_outcome(
    lexicon: Seq<Seq<char>>,
    before: SessionView,
    after: SessionView,
    reply: ReplyView,
) -> bool {
    ||| {
        &&& after.open_puzzle matches Some(puzzle)
        &&& puzzle.wf()
        &&& exists|i: int|
            0 <= i < lexicon.len() && puzzle.answer_word == uppercase_of(#[trigger] lexicon[i])
        &&& after == before.opened(puzzle)
        &&& reply == question_reply(puzzle)
    }
    ||| {
        &&& after == before
        &&& reply == internal_error_reply()
        &&& lexicon.len() == 0 || exists|i: int|
            0 <= i < lexicon.len() && !playable(uppercase_of(#[trigger] lexicon[i]))
    }
}

/// Every word of the lexicon is playable in upper case.
pub open spec fn all_playable(lexicon: Seq<Seq<char>>) -> bool {
    forall|i: int| 0 <= i < lexicon.len() ==> playable(uppercase_of(#[trigger] lexicon[i]))
}

/// What the engine owes for one message, from the session `before` of the
/// sender to the session `after` and the reply: by the command of the
/// message, the exact next session and the exact reply, or, for a new
/// question and for the version, what holds of every draw and every year.
pub open spec fn handled(
    lexicon: Seq<Seq<char>>,
    version: Seq<char>,
    authors: Seq<char>,
    before: SessionView,
    text: Seq<char>,
    after: SessionView,
    reply: ReplyView,
) -> bool {
    match command_of(text) {
        Command::NewQuestion => {
            &&& new_question_outcome(lexicon, before, after, reply)
            &&& lexicon.len() > 0 && all_playable(lexicon) ==> after.open_puzzle is Some
        },
        Command::Answer(option) => (after, reply) == answer_step(before, option as int),
        Command::Stats => after == before && reply == stats_reply(before.correct, before.total),
        Command::ResetStats => after == before.zeroed() && reply == reset_reply(),
        Command::Help => after == before && reply == help_reply(),
        Command::Version => {
            &&& after == before
            &&& exists|year: i32| reply == version_reply(version, year as int, authors)
        },
        Command::Unknown => after == before && reply == unknown_reply(text),
    }
}

/// The command of a message.
pub fn parse_command(text: &str) -> (command: Command)
    ensures
        command == command_of(text@),
{
    let chars = chars_of(text);
    let head = first_token_of(&chars);
    let token = string_of(&head);
    if spells(&token, "/new") || spells(&token, "/next") {
        Command::NewQuestion
    } else if spells(&token, "/A") {
        Command::Answer(0)
    } else if spells(&token, "/B") {
        Command::Answer(1)
    } else if spells(&token, "/C") {
        Command::Answer(2)
    } else if spells(&token, "/D") {
        Command::Answer(3)
    } else if spells(&token, "/E") {
        Command::Answer(4)
    } else if spells(&token, "/stats") {
        Command::Stats
    } else if spells(&token, "/reset_stats") {
        Command::ResetStats
    } else if spells(&token, "/help") {
        Command::Help
    } else if spells(&token, "/version") {
        Command::Version
    } else {
        Command::Unknown
    }
}

/// The conversation engine with its lexicon and the sessions of its users.
pub struct Client {
    word_generator: WordGenerator,
    sessions: SessionStore,
    version: String,
    authors: String,
}

impl Client {
    /// The words that questions are drawn from.
    pub closed spec fn lexicon(&self) -> Seq<Seq<char>> {
        self.word_generator@
    }

    /// The session of `user`; that of a user not seen yet is fresh.
    pub closed spec fn session(&self, user: i64) -> SessionView {
        self.sessions.session(user)
    }

    /// The version that `/version` reports.
    pub closed spec fn package_version(&self) -> Seq<char> {
        self.version@
    }

    /// The authors that `/version` reports.
    pub closed spec fn package_authors(&self) -> Seq<char> {
        self.authors@
    }

    /// Every session is well formed.
    pub closed spec fn wf(&self) -> bool {
        self.sessions.wf()
    }

    /// `after` differs from `self` in nothing but the session of `user`.
    pub open spec fn same_but_for(&self, after: &Client, user: i64) -> bool {
        &&& after.lexicon() == self.lexicon()
        &&& after.package_version() == self.package_version()
        &&& after.package_authors() == self.package_authors()
        &&& forall|other: i64| other != user ==> after.session(other) == self.session(other)
    }

    /// The engine can handle this message of `user`: any message, unless it
    /// answers an open question while the score of the user has no room for
    /// one more answer.
    pub open spec fn can_handle(&self, user: i64, text: Seq<char>) -> bool {
        let session = self.session(user);
        command_of(text) is Answer && session.open_puzzle is Some ==> session.total < u32::MAX
    }

    /// In a well-formed engine the session of every user is well formed.
    pub proof fn lemma_session_wf(&self, user: i64)
        requires
            self.wf(),
        ensures
            self.session(user).wf(),
    {
    }

    /// An engine for the given lexicon, with no sessions yet.
    pub fn new(word_generator: WordGenerator, version: String, authors: String) -> (client: Client)
        ensures
            client.wf(),
            client.lexicon() == word_generator@,
            client.package_version() == version@,
            client.package_authors() == authors@,
            forall|user: i64| client.session(user) == SessionView::fresh(),
    {
        Client { word_generator, sessions: SessionStore::new(), version, authors }
    }

    /// Whether the engine can handle this message of `user`.
    pub fn accepts(&self, user: i64, text: &str) -> (ok: bool)
        requires
            self.wf(),
        ensures
            ok == self.can_handle(user, text@),
    {
        match parse_command(text) {
            Command::Answer(_) => match self.sessions.open_puzzle(user) {
                Some(_) => self.sessions.stats(user).total_answered() < u32::MAX,
                None => true,
            },
            _ => true,
        }
    }

    /// The score of `user`.
    pub fn stats_of(&self, user: i64) -> (score: Stats)
        requires
            self.wf(),
        ensures
            score.correct() == self.session(user).correct,
            score.total() == self.session(user).total,
            score.wf(),
    {
        self.sessions.stats(user)
    }

    /// A copy of the open question of `user`, if there is one.
    pub fn open_puzzle(&self, user: i64) -> (open: Option<Puzzle>)
        ensures
            match open {
                Some(puzzle) => self.session(user).open_puzzle == Some(puzzle@),
                None => self.session(user).open_puzzle is None,
            },
    {
        match self.sessions.open_puzzle(user) {
            Some(puzzle) => Some(puzzle.duplicate()),
            None => None,
        }
    }

    /// The menu that goes with most replies.
    pub fn standard_keyboard() -> (rows: Vec<Vec<String>>)
        ensures
            keyboard_view(rows@) == standard_keyboard_view(),
    {
        standard_keyboard()
    }

    /// The text that lists the commands.
    pub fn help() -> (text: String)
        ensures
            text@ == help_text(),
    {
        String::from_str(
            "Dieser Bot bietet folgende Kommandos:\n- /new, /next: Nächstes Wort fragen\n- /stats: Statistiken anzeigen\n- /reset\\_stats: Statistiken zurücksetzen\n- /help: Ausgabe dieses Hilfe-Textes\n- /version: Versions-Informationen",
        )
    }

    /// The text that names the version, the current year and the authors.
    pub fn version(&self) -> (text: String)
        ensures
            exists|year: i32|
                text@ == version_text(self.package_version(), year as int, self.package_authors()),
    {
        let year: i32 = current_year();
        let text = version_text_for(self.version.as_str(), year, self.authors.as_str());
        assert(text@ == version_text(
            self.package_version(),
            year as int,
            self.package_authors(),
        ));
        text
    }

    /// Makes `puzzle` the open question of `user`, in place of any other, and
    /// asks it.
    pub fn open_question(&mut self, user: i64, puzzle: Puzzle) -> (reply: Reply)
        requires
            old(self).wf(),
            puzzle@.wf(),
        ensures
            final(self).wf(),
            old(self).same_but_for(final(self), user),
            final(self).session(user) == old(self).session(user).opened(puzzle@),
            reply@ == question_reply(puzzle@),
    {
        let text = question_text_for(puzzle.scrambled.as_str());
        let keyboard = question_keyboard(&puzzle.options);
        self.sessions.set_open_puzzle(user, puzzle);
        Reply { text, parse_mode: ParseMode::Markdown, keyboard }
    }

    /// Draws a word, builds the question for it, makes it the open question of
    /// `user` and asks it. Where no question can be built nothing changes and
    /// the reply reports an internal error.
    pub fn new_question(&mut self, user: i64) -> (reply: Reply)
        requires
            old(self).wf(),
        ensures
            final(self).wf(),
            old(self).same_but_for(final(self), user),
            new_question_outcome(
                old(self).lexicon(),
                old(self).session(user),
                final(self).session(user),
                reply@,
            ),
            ({
                let lexicon = old(self).lexicon();
                let after = final(self).session(user);
                lexicon.len() > 0 && all_playable(lexicon) ==> after.open_puzzle is Some
            }),
    {
        match self.word_generator.draw_puzzle() {
            Ok(puzzle) => self.open_question(user, puzzle),
            Err(_) => Reply {
                text: String::from_str("Interner Fehler!"),
                parse_mode: ParseMode::Plain,
                keyboard: standard_keyboard(),
            },
        }
    }

    /// Scores the answer `option` of `user` against the open question, closes
    /// the question and tells whether the answer was right. With no question
    /// open nothing changes and the reply says so.
    pub fn respond_to_answer(&mut self, option: usize, user: i64) -> (reply: Reply)
        requires
            old(self).wf(),
            old(self).session(user).open_puzzle is Some ==> old(self).session(user).total
                < u32::MAX,
        ensures
            final(self).wf(),
            old(self).same_but_for(final(self), user),
            (final(self).session(user), reply@) == answer_step(
                old(self).session(user),
                option as int,
            ),
    {
        let judged = match self.sessions.open_puzzle(user) {
            Some(puzzle) => {
                let correct = puzzle.correct_index == option;
                Some((correct, answer_text_for(correct, puzzle.answer_word.as_str())))
            },
            None => None,
        };
        match judged {
            Some((correct, text)) => {
                self.sessions.record_answer(user, correct);
                self.sessions.clear_open_puzzle(user);
                Reply { text, parse_mode: ParseMode::Markdown, keyboard: answered_keyboard() }
            },
            None => Reply {
                text: String::from_str("Error!"),
                parse_mode: ParseMode::Markdown,
                keyboard: answered_keyboard(),
            },
        }
    }

    /// Handles one inbound text message of `user` and gives the one reply to
    /// it. The command is the first token of the text, delimited by white
    /// space of any kind and matched letter for letter; white space at the
    /// start of the text is passed over.
    pub fn process_msg(&mut self, user: i64, text: &str) -> (reply: Reply)
        requires
            old(self).wf(),
            old(self).can_handle(user, text@),
        ensures
            final(self).wf(),
            old(self).same_but_for(final(self), user),
            handled(
                old(self).lexicon(),
                old(self).package_version(),
                old(self).package_authors(),
                old(self).session(user),
                text@,
                final(self).session(user),
                reply@,
            ),
    {
        match parse_command(text) {
            Command::NewQuestion => self.new_question(user),
            Command::Answer(option) => self.respond_to_answer(option, user),
            Command::Stats => {
                let score = self.sessions.stats(user);
                Reply {
                    text: score.stats(),
                    parse_mode: ParseMode::Markdown,
                    keyboard: standard_keyboard(),
                }
            },
            Command::ResetStats => {
                self.sessions.reset_score(user);
                Reply {
                    text: String::from_str("Statistiken sind zurückgesetzt!"),
                    parse_mode: ParseMode::Markdown,
                    keyboard: standard_keyboard(),
                }
            },
            Command::Help => Reply {
                text: Self::help(),
                parse_mode: ParseMode::Markdown,
                keyboard: standard_keyboard(),
            },
            Command::Version => {
                let text = self.version();
                let ghost year = choose|year: i32|
                    text@ == version_text(
                        self.package_version(),
                        year as int,
                        self.package_authors(),
                    );
                let reply = Reply {
                    text,
                    parse_mode: ParseMode::Markdown,
                    keyboard: standard_keyboard(),
                };
                assert(reply@ == version_reply(
                    self.package_version(),
                    year as int,
                    self.package_authors(),
                ));
                reply
            },
            Command::Unknown => Reply {
                text: unknown_text_for(text),
                parse_mode: ParseMode::Plain,
                keyboard: standard_keyboard(),
            },
        }
    }
}

} // verus!
