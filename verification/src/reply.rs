//! The replies of the quiz: their texts and the menus of actions that go with
//! them.

use crate::puzzle::PuzzleView;
use crate::stats::stats_text;
use crate::text::{chars_of, push_signed_decimal, signed_decimal};
use crate::word_generator::words_view;
use vstd::prelude::*;

verus! {

/// How the transport is to render the text of a reply.
#[derive(Clone, Copy, Debug, PartialEq, Eq)]
pub enum ParseMode {
    /// As it stands.
    Plain,
    /// With emphasis markup.
    Markdown,
}

/// One outbound reply: a text, how it is to be rendered, and a menu of
/// actions as rows of button labels.
#[derive(Debug, Clone)]
pub struct Reply {
    pub text: String,
    pub parse_mode: ParseMode,
    pub keyboard: Vec<Vec<String>>,
}

/// What a reply holds, as plain values.
pub struct ReplyView {
    pub text: Seq<char>,
    pub parse_mode: ParseMode,
    pub keyboard: Seq<Seq<Seq<char>>>,
}

/// The rows of a menu, as plain values.
pub open spec fn keyboard_view(rows: Seq<Vec<String>>) -> Seq<Seq<Seq<char>>> {
    rows.map_values(|row: Vec<String>| words_view(row@))
}

impl View for Reply {
    type V = ReplyView;

    open spec fn view(&self) -> ReplyView {
        ReplyView {
            text: self.text@,
            parse_mode: self.parse_mode,
            keyboard: keyboard_view(self.keyboard@),
        }
    }
}

/// The letters of `s` with a space between each two neighbours.
pub open spec fn spaced(s: Seq<char>) -> Seq<char>
    decreases s.len(),
{
    if s.len() <= 1 {
        s
    } else {
        spaced(s.drop_last()).push(' ').push(s.last())
    }
}

/// The text of a question: the scrambled letters, spaced out and emphasised.
pub open spec fn question_text(scrambled: Seq<char>) -> Seq<char> {
    "*"@ + spaced(scrambled) + "*"@
}

/// The text that tells whether an answer was right, and reveals the word.
pub open spec fn answer_text(correct: bool, word: Seq<char>) -> Seq<char> {
    if correct {
        "*Korrekt!*\nDas Wort war: "@ + word
    } else {
        "*Falsch!*\nDas Wort war: "@ + word
    }
}

/// The text sent for an answer when no question is open.
pub open spec fn no_open_question_text() -> Seq<char> {
    "Error!"@
}

/// The text sent when no question could be built.
pub open spec fn internal_error_text() -> Seq<char> {
    "Interner Fehler!"@
}

/// The text that confirms a reset of the score.
pub open spec fn reset_text() -> Seq<char> {
    "Statistiken sind zurückgesetzt!"@
}

/// The text that lists the commands.
pub open spec fn help_text() -> Seq<char> {
    "Dieser Bot bietet folgende Kommandos:\n- /new, /next: Nächstes Wort fragen\n- /stats: Statistiken anzeigen\n- /reset\\_stats: Statistiken zurücksetzen\n- /help: Ausgabe dieses Hilfe-Textes\n- /version: Versions-Informationen"@
}

/// The text that names the version, the year and the authors.
pub open spec fn version_text(version: Seq<char>, year: int, authors: Seq<char>) -> Seq<char> {
    "Version: *"@ + version + "*\n(c) "@ + signed_decimal(year) + " by "@ + authors
}

/// The text sent for a command that is not known: it repeats the whole
/// message.
pub open spec fn unknown_text(message: Seq<char>) -> Seq<char> {
    "Unbekanntes Kommando: "@ + message
}

/// The menu that goes with most replies.
pub open spec fn standard_keyboard_view() -> Seq<Seq<Seq<char>>> {
    seq![seq!["/next"@], seq!["/stats"@, "/reset_stats"@], seq!["/help"@, "/version"@]]
}

/// The menu that goes with the reply to an answer.
pub open spec fn answered_keyboard_view() -> Seq<Seq<Seq<char>>> {
    seq![seq!["/next"@], seq!["/stats"@, "/help"@]]
}

/// The menu that goes with a question: one button for each of the four
/// choices, and a fifth for "none of these".
pub open spec fn question_keyboard_view(options: Seq<char>) -> Seq<Seq<Seq<char>>> {
    seq![
        seq!["/A "@.push(options[0])],
        seq!["/B "@.push(options[1])],
        seq!["/C "@.push(options[2])],
        seq!["/D "@.push(options[3])],
        seq!["/E Keine der genannten Optionen"@],
    ]
}

/// The reply that asks a question.
pub open spec fn question_reply(puzzle: PuzzleView) -> ReplyView {
    ReplyView {
        text: question_text(puzzle.scrambled),
        parse_mode: ParseMode::Markdown,
        keyboard: question_keyboard_view(puzzle.options),
    }
}

/// The reply to an answer to the open question.
pub open spec fn answer_reply(correct: bool, word: Seq<char>) -> ReplyView {
    ReplyView {
        text: answer_text(correct, word),
        parse_mode: ParseMode::Markdown,
        keyboard: answered_keyboard_view(),
    }
}

/// The reply to an answer when no question is open.
pub open spec fn no_open_question_reply() -> ReplyView {
    ReplyView {
        text: no_open_question_text(),
        parse_mode: ParseMode::Markdown,
        keyboard: answered_keyboard_view(),
    }
}

/// The reply sent when no question could be built.
pub open spec fn internal_error_reply() -> ReplyView {
    ReplyView {
        text: internal_error_text(),
        parse_mode: ParseMode::Plain,
        keyboard: standard_keyboard_view(),
    }
}

/// The reply that reports a score.
pub open spec fn stats_reply(correct: nat, total: nat) -> ReplyView {
    ReplyView {
        text: stats_text(correct, total),
        parse_mode: ParseMode::Markdown,
        keyboard: standard_keyboard_view(),
    }
}

/// The reply that confirms a reset of the score.
pub open spec fn reset_reply() -> ReplyView {
    ReplyView {
        text: reset_text(),
        parse_mode: ParseMode::Markdown,
        keyboard: standard_keyboard_view(),
    }
}

/// The reply that lists the commands.
pub open spec fn help_reply() -> ReplyView {
    ReplyView {
        text: help_text(),
        parse_mode: ParseMode::Markdown,
        keyboard: standard_keyboard_view(),
    }
}

/// The reply that names the version.
pub open spec fn version_reply(version: Seq<char>, year: int, authors: Seq<char>) -> ReplyView {
    ReplyView {
        text: version_text(version, year, authors),
        parse_mode: ParseMode::Markdown,
        keyboard: standard_keyboard_view(),
    }
}

/// The reply to a command that is not known.
pub open spec fn unknown_reply(message: Seq<char>) -> ReplyView {
    ReplyView {
        text: unknown_text(message),
        parse_mode: ParseMode::Plain,
        keyboard: standard_keyboard_view(),
    }
}

/// A row with one button.
fn row_of_one(label: String) -> (row: Vec<String>)
    ensures
        words_view(row@) == seq![label@],
{
    let mut row: Vec<String> = Vec::new();
    row.push(label);
    row
}

/// A row with two buttons.
fn row_of_two(left: String, right: String) -> (row: Vec<String>)
    ensures
        words_view(row@) == seq![left@, right@],
{
    let mut row: Vec<String> = Vec::new();
    row.push(left);
    row.push(right);
    row
}

/// The menu that goes with most replies.
pub fn standard_keyboard() -> (rows: Vec<Vec<String>>)
    ensures
        keyboard_view(rows@) == standard_keyboard_view(),
{
    let mut rows: Vec<Vec<String>> = Vec::new();
    rows.push(row_of_one(String::from_str("/next")));
    rows.push(row_of_two(String::from_str("/stats"), String::from_str("/reset_stats")));
    rows.push(row_of_two(String::from_str("/help"), String::from_str("/version")));
    rows
}

/// The menu that goes with the reply to an answer.
pub fn answered_keyboard() -> (rows: Vec<Vec<String>>)
    ensures
        keyboard_view(rows@) == answered_keyboard_view(),
{
    let mut rows: Vec<Vec<String>> = Vec::new();
    rows.push(row_of_one(String::from_str("/next")));
    rows.push(row_of_two(String::from_str("/stats"), String::from_str("/help")));
    rows
}

/// The label of the button for one choice: its command and the letter.
fn option_label(command: &str, letter: char) -> (label: String)
    ensures
        label@ == command@.push(letter),
{
    let mut label = String::from_str(command);
    label.push(letter);
    label
}

/// The menu that goes with a question.
pub fn question_keyboard(options: &[char; 4]) -> (rows: Vec<Vec<String>>)
    ensures
        keyboard_view(rows@) == question_keyboard_view(options@),
{
    let mut rows: Vec<Vec<String>> = Vec::new();
    rows.push(row_of_one(option_label("/A ", options[0])));
    rows.push(row_of_one(option_label("/B ", options[1])));
    rows.push(row_of_one(option_label("/C ", options[2])));
    rows.push(row_of_one(option_label("/D ", options[3])));
    rows.push(row_of_one(String::from_str("/E Keine der genannten Optionen")));
    rows
}

/// The text of a question for the scrambled letters.
pub fn question_text_for(scrambled: &str) -> (text: String)
    ensures
        text@ == question_text(scrambled@),
{
    let letters = chars_of(scrambled);
    let mut text = String::from_str("*");
    let mut i: usize = 0;
    while i < letters.len()
        invariant
            i <= letters.len(),
            text@ == "*"@ + spaced(letters@.take(i as int)),
        decreases letters.len() - i,
    {
        if i > 0 {
            text.push(' ');
        }
        text.push(letters[i]);
        assert(letters@.take(i + 1).drop_last() =~= letters@.take(i as int));
        i += 1;
    }
    assert(letters@.take(i as int) =~= letters@);
    text.append("*");
    text
}

/// The text that tells whether an answer was right, and reveals the word.
pub fn answer_text_for(correct: bool, word: &str) -> (text: String)
    ensures
        text@ == answer_text(correct, word@),
{
    let mut text = if correct {
        String::from_str("*Korrekt!*\nDas Wort war: ")
    } else {
        String::from_str("*Falsch!*\nDas Wort war: ")
    };
    text.append(word);
    text
}

/// The text that names the version, the year and the authors.
pub fn version_text_for(version: &str, year: i32, authors: &str) -> (text: String)
    ensures
        text@ == version_text(version@, year as int, authors@),
{
    let mut text = String::from_str("Version: *");
    text.append(version);
    text.append("*\n(c) ");
    push_signed_decimal(&mut text, year);
    text.append(" by ");
    text.append(authors);
    text
}

/// The text sent for a command that is not known.
pub fn unknown_text_for(message: &str) -> (text: String)
    ensures
        text@ == unknown_text(message@),
{
    let mut text = String::from_str("Unbekanntes Kommando: ");
    text.append(message);
    text
}

} // verus!
