//! What holds of the quiz as a whole, stated over the same models as the
//! contracts of its functions and proved from them.

use crate::client::{
    answer_step, command_of, command_token, handled, new_question_outcome, Command,
};
use crate::puzzle::{is_scramble_of, valid_options, PuzzleView};
use crate::reply::{
    answer_reply, answered_keyboard_view, internal_error_reply, no_open_question_reply,
    question_keyboard_view, question_reply, standard_keyboard_view, stats_reply, ReplyView,
};
use crate::session::SessionView;
use crate::stats::{percentage_hundredths, stats_text, two_places};
use crate::text::{decimal, is_whitespace, lemma_first_whitespace, lemma_leading_whitespace};
use vstd::prelude::*;

verus! {

/// Valid choices are four different letters, and the first letter of the word
/// is among them exactly once: at the place marked as the right one.
pub proof fn law_first_letter_exactly_once(
    word: Seq<char>,
    options: Seq<char>,
    correct_index: int,
)
    requires
        valid_options(word, options, correct_index),
    ensures
        options.len() == 4,
        options.no_duplicates(),
        forall|j: int| 0 <= j < 4 ==> (options[j] == word[0] <==> j == correct_index),
        options.to_multiset().count(word[0]) == 1,
{
    options.to_multiset_ensures();
    options.lemma_multiset_has_no_duplicates();
    assert(options.contains(options[correct_index]));
    assert(options.to_multiset().count(word[0]) > 0);
}

/// A scramble of a word has the letters of the word, each as often as the
/// word has it: the same length, and the same count of every letter.
pub proof fn law_scramble_keeps_letters(word: Seq<char>, scrambled: Seq<char>)
    requires
        is_scramble_of(word, scrambled),
    ensures
        scrambled.len() == word.len(),
        forall|c: char| scrambled.to_multiset().count(c) == word.to_multiset().count(c),
        forall|c: char| scrambled.contains(c) <==> word.contains(c),
{
    word.to_multiset_ensures();
    scrambled.to_multiset_ensures();
    assert forall|c: char| scrambled.contains(c) <==> word.contains(c) by {
        assert(scrambled.contains(c) <==> scrambled.to_multiset().count(c) > 0);
        assert(word.contains(c) <==> word.to_multiset().count(c) > 0);
    }
}

/// A request for a new question never touches the score, and leaves the
/// session either with a valid question open or as it was.
pub proof fn law_new_question_keeps_score(
    lexicon: Seq<Seq<char>>,
    before: SessionView,
    after: SessionView,
    reply: ReplyView,
)
    requires
        before.wf(),
        new_question_outcome(lexicon, before, after, reply),
    ensures
        after.wf(),
        after.correct == before.correct,
        after.total == before.total,
        after != before ==> after.open_puzzle is Some,
{
}

/// An answer while a question is open counts one more answer and closes the
/// question. It counts one more correct answer if the choice is the place of
/// the right one, and none otherwise. The reply reveals the word of the
/// question that was open.
pub proof fn law_answer_is_scored(before: SessionView, puzzle: PuzzleView, option: int)
    ensures
        ({
            let (after, reply) = answer_step(before.opened(puzzle), option);
            &&& after.open_puzzle is None
            &&& after.total == before.total + 1
            &&& option == puzzle.correct_index ==> after.correct == before.correct + 1
            &&& option != puzzle.correct_index ==> after.correct == before.correct
            &&& reply == answer_reply(option == puzzle.correct_index, puzzle.answer_word)
            &&& option == puzzle.correct_index ==> reply.text == "*Korrekt!*\nDas Wort war: "@
                + puzzle.answer_word
            &&& option != puzzle.correct_index ==> reply.text == "*Falsch!*\nDas Wort war: "@
                + puzzle.answer_word
        }),
{
}

/// A question asked in place of another replaces it: an answer is scored
/// against the new question and reveals the new word, whatever the old
/// question was.
pub proof fn law_no_stale_question(
    before: SessionView,
    first: PuzzleView,
    second: PuzzleView,
    option: int,
)
    ensures
        answer_step(before.opened(first).opened(second), option) == answer_step(
            before.opened(second),
            option,
        ),
{
}

/// The fifth choice, "none of these", is never the right one: with a valid
/// question open it counts as a wrong answer.
pub proof fn law_none_of_these_is_wrong(before: SessionView, puzzle: PuzzleView)
    requires
        puzzle.wf(),
    ensures
        answer_step(before.opened(puzzle), 4).0.correct == before.correct,
        answer_step(before.opened(puzzle), 4).0.total == before.total + 1,
{
}

/// An answer while no question is open changes nothing, the score included,
/// and is replied to with the message for that case.
pub proof fn law_answer_while_idle(session: SessionView, option: int)
    requires
        session.open_puzzle is None,
    ensures
        answer_step(session, option) == (session, no_open_question_reply()),
{
}

/// A session stays well formed through every change the engine makes to it.
pub proof fn law_sessions_stay_well_formed(session: SessionView, puzzle: PuzzleView, option: int)
    requires
        session.wf(),
        puzzle.wf(),
    ensures
        session.opened(puzzle).wf(),
        session.closed().wf(),
        session.answered(true).wf(),
        session.answered(false).wf(),
        session.zeroed().wf(),
        answer_step(session, option).0.wf(),
{
}

/// After a reset the score reads zero of zero and one hundred percent,
/// whatever it was before.
pub proof fn law_reset_then_stats(session: SessionView)
    ensures
        session.zeroed().correct == 0,
        session.zeroed().total == 0,
        session.zeroed().open_puzzle == session.open_puzzle,
        percentage_hundredths(session.zeroed().correct, session.zeroed().total) == 10000,
        stats_reply(session.zeroed().correct, session.zeroed().total) == stats_reply(0, 0),
        stats_text(0, 0)
            == "Richtig beantwortet: 0\nInsgesamt beantwortet: 0\nProzentsatz: 100.00%"@,
{
    reveal_strlit("Richtig beantwortet: 0\nInsgesamt beantwortet: 0\nProzentsatz: 100.00%");
    reveal_strlit("Richtig beantwortet: ");
    reveal_strlit("\nInsgesamt beantwortet: ");
    reveal_strlit("\nProzentsatz: ");
    reveal_strlit("%");
    reveal_with_fuel(decimal, 4);
    assert(decimal(0) =~= seq!['0']);
    assert(decimal(100) =~= seq!['1', '0', '0']);
    assert(two_places(10000) =~= seq!['1', '0', '0', '.', '0', '0']);
    assert(stats_text(0, 0)
        =~= "Richtig beantwortet: 0\nInsgesamt beantwortet: 0\nProzentsatz: 100.00%"@);
}

/// The token of a button label that is a command followed by a space and
/// more is the command.
proof fn lemma_token_before_space(label: Seq<char>, command: Seq<char>)
    requires
        0 < command.len() < label.len(),
        label.take(command.len() as int) == command,
        label[command.len() as int] == ' ',
        forall|j: int| 0 <= j < command.len() ==> !is_whitespace(command[j]),
    ensures
        command_token(label) == command,
{
    assert forall|j: int| 0 <= j < command.len() implies !is_whitespace(label[j]) by {
        assert(label[j] == label.take(command.len() as int)[j]);
    }
    lemma_leading_whitespace(label, 0);
    assert(label.skip(0) =~= label);
    lemma_first_whitespace(label, command.len() as int);
}

/// The token of a button label without white space is the label.
proof fn lemma_token_without_space(label: Seq<char>)
    requires
        forall|j: int| 0 <= j < label.len() ==> !is_whitespace(label[j]),
    ensures
        command_token(label) == label,
{
    lemma_leading_whitespace(label, 0);
    assert(label.skip(0) =~= label);
    lemma_first_whitespace(label, label.len() as int);
    assert(label.take(label.len() as int) =~= label);
}

/// The buttons of a question answer it: pressed, the button in row `i` sends
/// a message whose command is the answer with choice `i`, whatever the four
/// letters are.
pub proof fn law_question_buttons_answer(options: Seq<char>, i: int)
    requires
        0 <= i < 5,
    ensures
        question_keyboard_view(options).len() == 5,
        question_keyboard_view(options)[i].len() == 1,
        command_of(question_keyboard_view(options)[i][0]) == Command::Answer(i as usize),
{
    reveal_strlit("/new");
    reveal_strlit("/next");
    reveal_strlit("/A");
    reveal_strlit("/B");
    reveal_strlit("/C");
    reveal_strlit("/D");
    reveal_strlit("/E");
    reveal_strlit("/A ");
    reveal_strlit("/B ");
    reveal_strlit("/C ");
    reveal_strlit("/D ");
    reveal_strlit("/E Keine der genannten Optionen");
    let label = question_keyboard_view(options)[i][0];
    let command = if i == 0 {
        "/A"@
    } else if i == 1 {
        "/B"@
    } else if i == 2 {
        "/C"@
    } else if i == 3 {
        "/D"@
    } else {
        "/E"@
    };
    assert(label.take(2) =~= command);
    lemma_token_before_space(label, command);
    assert("/A"@[1] == 'A' && "/B"@[1] == 'B' && "/C"@[1] == 'C' && "/D"@[1] == 'D' && "/E"@[1]
        == 'E');
}

/// The buttons of the other menus are commands: pressed, each sends the
/// message that asks for what the button names.
pub proof fn law_menu_buttons_are_commands()
    ensures
        standard_keyboard_view().len() == 3,
        command_of(standard_keyboard_view()[0][0]) == Command::NewQuestion,
        command_of(standard_keyboard_view()[1][0]) == Command::Stats,
        command_of(standard_keyboard_view()[1][1]) == Command::ResetStats,
        command_of(standard_keyboard_view()[2][0]) == Command::Help,
        command_of(standard_keyboard_view()[2][1]) == Command::Version,
        answered_keyboard_view().len() == 2,
        command_of(answered_keyboard_view()[0][0]) == Command::NewQuestion,
        command_of(answered_keyboard_view()[1][0]) == Command::Stats,
        command_of(answered_keyboard_view()[1][1]) == Command::Help,
{
    reveal_strlit("/new");
    reveal_strlit("/next");
    reveal_strlit("/A");
    reveal_strlit("/B");
    reveal_strlit("/C");
    reveal_strlit("/D");
    reveal_strlit("/E");
    reveal_strlit("/stats");
    reveal_strlit("/reset_stats");
    reveal_strlit("/help");
    reveal_strlit("/version");
    lemma_token_without_space("/new"@);
    lemma_token_without_space("/next"@);
    lemma_token_without_space("/stats"@);
    lemma_token_without_space("/reset_stats"@);
    lemma_token_without_space("/help"@);
    lemma_token_without_space("/version"@);
    assert("/stats"@[1] == 's' && "/reset_stats"@[1] == 'r' && "/help"@[1] == 'h' && "/version"@[1]
        == 'v' && "/new"@[1] == 'n' && "/next"@[3] == 'x' && "/new"@[3] == 'w');
}

/// The reply that asks a question shows the first letter of the word at the
/// place of the right choice and nowhere else, and the button at that place
/// sends the answer with that choice.
pub proof fn law_menu_shows_first_letter_at_right_place(
    lexicon: Seq<Seq<char>>,
    version: Seq<char>,
    authors: Seq<char>,
    before: SessionView,
    asked: Seq<char>,
    after: SessionView,
    question: ReplyView,
)
    requires
        before.wf(),
        command_of(asked) == Command::NewQuestion,
        handled(lexicon, version, authors, before, asked, after, question),
        question != internal_error_reply(),
    ensures
        after.open_puzzle is Some,
        ({
            let puzzle = after.open_puzzle->0;
            let k = puzzle.correct_index;
            &&& question == question_reply(puzzle)
            &&& 0 <= k < 4
            &&& question.keyboard[k][0].last() == puzzle.answer_word[0]
            &&& command_of(question.keyboard[k][0]) == Command::Answer(k as usize)
            &&& forall|j: int|
                0 <= j < 4 && j != k ==> (#[trigger] question.keyboard[j])[0].last()
                    != puzzle.answer_word[0]
        }),
{
    let puzzle = after.open_puzzle->0;
    law_first_letter_exactly_once(puzzle.answer_word, puzzle.options, puzzle.correct_index);
    law_question_buttons_answer(puzzle.options, puzzle.correct_index);
}

/// After a request for a new question that left a question open, the answer
/// with the place of the right choice counts one more answer and one more
/// correct answer, closes the question, and is replied to with the text for
/// a correct answer and the word of that question.
pub proof fn law_new_then_right_answer(
    lexicon: Seq<Seq<char>>,
    version: Seq<char>,
    authors: Seq<char>,
    start: SessionView,
    asked: Seq<char>,
    open: SessionView,
    question: ReplyView,
    answer: Seq<char>,
    end: SessionView,
    verdict: ReplyView,
)
    requires
        start.wf(),
        command_of(asked) == Command::NewQuestion,
        handled(lexicon, version, authors, start, asked, open, question),
        open.open_puzzle is Some,
        command_of(answer) matches Command::Answer(option) && option
            == open.open_puzzle->0.correct_index,
        handled(lexicon, version, authors, open, answer, end, verdict),
    ensures
        end.total == start.total + 1,
        end.correct == start.correct + 1,
        end.open_puzzle is None,
        end.wf(),
        verdict == answer_reply(true, open.open_puzzle->0.answer_word),
        verdict.text == "*Korrekt!*\nDas Wort war: "@ + open.open_puzzle->0.answer_word,
{
}

/// After a request for a new question that left a question open, an answer
/// with any other choice counts one more answer and no correct one, closes
/// the question, and is replied to with the text for a wrong answer and the
/// word of that question.
pub proof fn law_new_then_other_answer(
    lexicon: Seq<Seq<char>>,
    version: Seq<char>,
    authors: Seq<char>,
    start: SessionView,
    asked: Seq<char>,
    open: SessionView,
    question: ReplyView,
    answer: Seq<char>,
    end: SessionView,
    verdict: ReplyView,
)
    requires
        start.wf(),
        command_of(asked) == Command::NewQuestion,
        handled(lexicon, version, authors, start, asked, open, question),
        open.open_puzzle is Some,
        command_of(answer) matches Command::Answer(option) && option
            != open.open_puzzle->0.correct_index,
        handled(lexicon, version, authors, open, answer, end, verdict),
    ensures
        end.total == start.total + 1,
        end.correct == start.correct,
        end.open_puzzle is None,
        end.wf(),
        verdict == answer_reply(false, open.open_puzzle->0.answer_word),
        verdict.text == "*Falsch!*\nDas Wort war: "@ + open.open_puzzle->0.answer_word,
{
}

/// Two questions in a row: once the first was answered and a second one
/// asked, an answer is scored against the second question alone. A choice
/// other than its right one counts as wrong and reveals the second word,
/// whatever the first question and its right choice were.
pub proof fn law_second_question_is_the_one_scored(
    lexicon: Seq<Seq<char>>,
    version: Seq<char>,
    authors: Seq<char>,
    start: SessionView,
    texts: Seq<Seq<char>>,
    sessions: Seq<SessionView>,
    replies: Seq<ReplyView>,
)
    requires
        start.wf(),
        texts.len() == 4,
        sessions.len() == 4,
        replies.len() == 4,
        command_of(texts[0]) == Command::NewQuestion,
        handled(lexicon, version, authors, start, texts[0], sessions[0], replies[0]),
        sessions[0].open_puzzle is Some,
        command_of(texts[1]) is Answer,
        handled(lexicon, version, authors, sessions[0], texts[1], sessions[1], replies[1]),
        command_of(texts[2]) == Command::NewQuestion,
        handled(lexicon, version, authors, sessions[1], texts[2], sessions[2], replies[2]),
        sessions[2].open_puzzle is Some,
        command_of(texts[3]) matches Command::Answer(option) && option
            != sessions[2].open_puzzle->0.correct_index,
        handled(lexicon, version, authors, sessions[2], texts[3], sessions[3], replies[3]),
    ensures
        replies[2] == question_reply(sessions[2].open_puzzle->0),
        replies[3].text == "*Falsch!*\nDas Wort war: "@ + sessions[2].open_puzzle->0.answer_word,
        sessions[3].total == start.total + 2,
        sessions[3].correct == sessions[1].correct,
        sessions[3].open_puzzle is None,
{
}

} // verus!
