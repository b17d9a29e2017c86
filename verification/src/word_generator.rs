//! The lexicon and the puzzle generator: drawing a word, scrambling its
//! letters and building the four choices for its first letter.

use crate::puzzle::{
    distractors, distractors_upto, is_distractor, is_scramble_of, lemma_distractors,
    lemma_distractors_upto, lemma_reordered_distinct, valid_options, Puzzle,
};
use crate::random::{choose_letters, choose_word, shuffle_letters, taken_at};
use crate::text::{chars_of, first_place_of, lemma_first_place_of, string_of, uppercase_of};
use rand::thread_rng;
use vstd::prelude::*;

verus! {

/// Where the first line of `s` ends: the place of its first line feed, or the
/// length of `s` if it holds none.
pub open spec fn line_end(s: Seq<char>) -> int {
    first_place_of(s, '\n')
}

/// A line without the carriage return that may stand before its line feed.
pub open spec fn without_cr(line: Seq<char>) -> Seq<char> {
    if line.len() > 0 && line.last() == '\r' {
        line.drop_last()
    } else {
        line
    }
}

/// The lines of a text. A line ends at a line feed, or at a carriage return
/// directly followed by one; the line ending is no part of the line. What
/// follows the last line feed is a line of its own unless it is empty.
pub open spec fn lines_of(s: Seq<char>) -> Seq<Seq<char>>
    decreases s.len(),
{
    if s.len() == 0 {
        Seq::empty()
    } else {
        let k = line_end(s);
        if 0 <= k < s.len() {
            seq![without_cr(s.take(k))] + lines_of(s.skip(k + 1))
        } else {
            seq![s]
        }
    }
}

/// The words of a list of strings, as plain values.
pub open spec fn words_view(words: Seq<String>) -> Seq<Seq<char>> {
    words.map_values(|w: String| w@)
}

/// A word has enough letters to build a question from: at least three
/// different letters besides its first one.
pub open spec fn playable(word: Seq<char>) -> bool {
    distractors(word).len() >= 3
}

/// The lexicon has no word: the text to load lists none, or there is none to
/// draw.
#[derive(Clone, Copy, Debug, PartialEq, Eq)]
pub struct EmptyLexiconError;

/// The word has fewer than three different letters besides its first one.
#[derive(Clone, Copy, Debug, PartialEq, Eq)]
pub struct InsufficientDistractorsError;

/// Why no puzzle could be drawn.
#[derive(Clone, Copy, Debug, PartialEq, Eq)]
pub enum PuzzleError {
    /// The lexicon has no word to draw.
    EmptyLexicon,
    /// The drawn word has fewer than three different letters besides its
    /// first one.
    InsufficientDistractors,
}

/// The lexicon: the candidate words, in the order in which they were loaded.
#[derive(Debug, Clone)]
pub struct WordGenerator {
    words: Vec<String>,
}

impl View for WordGenerator {
    type V = Seq<Seq<char>>;

    closed spec fn view(&self) -> Seq<Seq<char>> {
        words_view(self.words@)
    }
}

/// The distractors of `word`, in the order in which they first occur.
pub fn distractor_pool(word: &Vec<char>) -> (pool: Vec<char>)
    ensures
        pool@ == distractors(word@),
        pool@.no_duplicates(),
        forall|c: char| pool@.contains(c) <==> is_distractor(word@, c),
{
    let mut pool: Vec<char> = Vec::new();
    proof {
        lemma_distractors(word@);
    }
    if word.len() == 0 {
        return pool;
    }
    let mut i: usize = 1;
    while i < word.len()
        invariant
            1 <= i <= word.len(),
            pool@ == distractors_upto(word@, i as int),
        decreases word.len() - i,
    {
        let c = word[i];
        let mut seen = c == word[0];
        let mut j: usize = 0;
        while !seen && j < pool.len()
            invariant
                j <= pool.len(),
                word@.len() > 0,
                seen ==> c == word@[0] || pool@.contains(c),
                !seen ==> c != word@[0] && forall|k: int| 0 <= k < j ==> pool@[k] != c,
            decreases pool.len() - j + if seen { 0int } else { 1int },
        {
            if pool[j] == c {
                seen = true;
            } else {
                j += 1;
            }
        }
        if !seen {
            pool.push(c);
        }
        i += 1;
    }
    pool
}

/// Lays four shuffled letters out as the choices of a question and finds the
/// place of the right one: the first place that holds `first`. There is no
/// result unless the letters are four and `first` is among them.
pub fn arrange_options(shuffled: &Vec<char>, first: char) -> (arranged: Option<([char; 4], usize)>)
    ensures
        arranged is Some <==> shuffled@.len() == 4 && shuffled@.contains(first),
        match arranged {
            Some((options, correct_index)) => {
                &&& options@ == shuffled@
                &&& correct_index < 4
                &&& shuffled@[correct_index as int] == first
                &&& forall|j: int| 0 <= j < correct_index ==> shuffled@[j] != first
            },
            None => true,
        },
{
    if shuffled.len() != 4 {
        return None;
    }
    let options: [char; 4] = [shuffled[0], shuffled[1], shuffled[2], shuffled[3]];
    assert(options@ =~= shuffled@);
    let mut i: usize = 0;
    while i < 4
        invariant
            i <= 4,
            shuffled@.len() == 4,
            options@ == shuffled@,
            forall|j: int| 0 <= j < i ==> shuffled@[j] != first,
        decreases 4 - i,
    {
        if shuffled[i] == first {
            return Some((options, i));
        }
        i += 1;
    }
    None
}

impl WordGenerator {
    /// A lexicon of the given words. Where they are none, every draw from it
    /// fails.
    pub fn new(words: Vec<String>) -> (lexicon: WordGenerator)
        ensures
            lexicon@ == words_view(words@),
    {
        WordGenerator { words }
    }

    /// The lexicon that a text lists, one word per line. A text without a
    /// line lists no word and is rejected: a loaded lexicon is never empty.
    pub fn from_text(text: &str) -> (loaded: Result<WordGenerator, EmptyLexiconError>)
        ensures
            match loaded {
                Ok(lexicon) => lexicon@ == lines_of(text@) && lexicon@.len() > 0,
                Err(_) => lines_of(text@).len() == 0,
            },
    {
        let chars = chars_of(text);
        let n = chars.len();
        let mut words: Vec<String> = Vec::new();
        let mut line: Vec<char> = Vec::new();
        let mut start: usize = 0;
        let mut i: usize = 0;
        assert(chars@.skip(0) =~= chars@);
        while i < n
            invariant
                n == chars@.len(),
                start <= i <= n,
                line@ == chars@.subrange(start as int, i as int),
                forall|j: int| start <= j < i ==> chars@[j] != '\n',
                lines_of(chars@) == words_view(words@) + lines_of(chars@.skip(start as int)),
            decreases n - i,
        {
            let c = chars[i];
            if c == '\n' {
                let ghost rest = chars@.skip(start as int);
                let ghost k = i - start;
                proof {
                    lemma_first_place_of(rest, '\n', k);
                    assert(rest.take(k) =~= line@);
                    assert(rest.skip(k + 1) =~= chars@.skip(i + 1));
                }
                let len = line.len();
                if len > 0 && line[len - 1] == '\r' {
                    line.pop();
                }
                assert(line@ =~= without_cr(rest.take(k)));
                let word = string_of(&line);
                let ghost before = words_view(words@);
                words.push(word);
                assert(words_view(words@) =~= before.push(line@));
                assert(lines_of(chars@) =~= words_view(words@) + lines_of(chars@.skip(i + 1)));
                line = Vec::new();
                start = i + 1;
            } else {
                line.push(c);
            }
            i += 1;
            assert(line@ =~= chars@.subrange(start as int, i as int));
        }
        if start < n {
            let ghost rest = chars@.skip(start as int);
            proof {
                lemma_first_place_of(rest, '\n', n - start);
                assert(rest =~= line@);
            }
            let word = string_of(&line);
            let ghost before = words_view(words@);
            words.push(word);
            assert(words_view(words@) =~= before.push(line@));
            assert(lines_of(chars@) =~= words_view(words@));
        } else {
            assert(lines_of(chars@) =~= words_view(words@));
        }
        if words.len() == 0 {
            Err(EmptyLexiconError)
        } else {
            Ok(WordGenerator { words })
        }
    }

    /// The number of words.
    pub fn len(&self) -> (n: usize)
        ensures
            n == self@.len(),
    {
        self.words.len()
    }

    /// The word at place `index`.
    pub fn word(&self, index: usize) -> (word: &String)
        requires
            index < self@.len(),
        ensures
            word@ == self@[index as int],
    {
        &self.words[index]
    }

    /// Draws one of the words at random, each draw independent of the others.
    /// Fails exactly when the lexicon is empty.
    pub fn random_word(&self) -> (drawn: Result<String, EmptyLexiconError>)
        ensures
            match drawn {
                Ok(word) => self@.contains(word@),
                Err(_) => self@.len() == 0,
            },
    {
        let mut rng = thread_rng();
        match choose_word(&self.words, &mut rng) {
            Some(word) => {
                proof {
                    let i = choose|i: int|
                        0 <= i < self.words@.len() && (#[trigger] self.words@[i])@ == word@;
                    assert(self@[i] == word@);
                }
                Ok(word)
            },
            None => Err(EmptyLexiconError),
        }
    }

    /// The letters of `word` in a random order. Nothing asks that the order
    /// differ from that of the word.
    pub fn word_shuffle(word: &String) -> (scrambled: String)
        ensures
            is_scramble_of(word@, scrambled@),
            scrambled@.len() == word@.len(),
            word@.len() <= 1 ==> scrambled@ == word@,
    {
        let mut rng = thread_rng();
        let mut letters = chars_of(word.as_str());
        shuffle_letters(&mut letters, &mut rng);
        proof {
            letters@.to_multiset_ensures();
            word@.to_multiset_ensures();
            if word@.len() == 1 {
                assert(letters@.contains(letters@[0]));
                assert(letters@.to_multiset().count(letters@[0]) > 0);
                assert(word@.to_multiset().count(letters@[0]) > 0);
                assert(word@.contains(letters@[0]));
                assert(letters@ =~= word@);
            } else if word@.len() == 0 {
                assert(letters@ =~= word@);
            }
        }
        string_of(&letters)
    }

    /// Four choices for the first letter of `word`, in a random order, and the
    /// place of the right one among them: the first letter itself and three
    /// different distractors drawn at random. Fails exactly when the word has
    /// fewer than three distractors, as an empty word has.
    pub fn answer_options(word: &String) -> (built: Result<
        ([char; 4], usize),
        InsufficientDistractorsError,
    >)
        ensures
            match built {
                Ok((options, correct_index)) => valid_options(
                    word@,
                    options@,
                    correct_index as int,
                ),
                Err(_) => !playable(word@),
            },
            playable(word@) ==> built is Ok,
    {
        let letters = chars_of(word.as_str());
        let pool = distractor_pool(&letters);
        if pool.len() < 3 {
            return Err(InsufficientDistractorsError);
        }
        proof {
            lemma_distractors_upto(word@, word@.len() as int);
        }
        let first = letters[0];
        let mut rng = thread_rng();
        let mut candidates = choose_letters(&pool, &mut rng, 3);
        let ghost chosen = candidates@;
        candidates.push(first);
        let ghost unshuffled = candidates@;
        proof {
            let indices = choose|indices: Seq<int>| taken_at(pool@, indices, chosen);
            assert forall|a: int, b: int| 0 <= a < b < 4 implies unshuffled[a] != unshuffled[b] by {
                if b < 3 {
                    assert(indices[a] != indices[b]);
                    assert(chosen[a] == pool@[indices[a]]);
                    assert(chosen[b] == pool@[indices[b]]);
                } else {
                    assert(chosen[a] == pool@[indices[a]]);
                    assert(pool@.contains(chosen[a]));
                }
            }
            assert forall|c: char| unshuffled.contains(c) implies c == first || is_distractor(
                word@,
                c,
            ) by {
                let k = choose|k: int| 0 <= k < unshuffled.len() && unshuffled[k] == c;
                if k < 3 {
                    assert(chosen[k] == pool@[indices[k]]);
                    assert(pool@.contains(c));
                }
            }
            assert(unshuffled[3] == first);
        }
        shuffle_letters(&mut candidates, &mut rng);
        proof {
            lemma_reordered_distinct(unshuffled, candidates@);
            assert(unshuffled.contains(first));
        }
        match arrange_options(&candidates, first) {
            Some((options, correct_index)) => {
                proof {
                    assert forall|j: int| 0 <= j < 4 && j != correct_index implies is_distractor(
                        word@,
                        #[trigger] options@[j],
                    ) by {
                        assert(candidates@.contains(candidates@[j]));
                        assert(unshuffled.contains(candidates@[j]));
                    }
                }
                Ok((options, correct_index))
            },
            None => vstd::pervasive::unreached(),
        }
    }

    /// The question for `word`: its letters scrambled and four choices for its
    /// first letter. Fails exactly when the word has fewer than three
    /// distractors.
    pub fn puzzle_for(word: String) -> (built: Result<Puzzle, InsufficientDistractorsError>)
        ensures
            match built {
                Ok(puzzle) => puzzle@.wf() && puzzle@.answer_word == word@,
                Err(_) => !playable(word@),
            },
            playable(word@) ==> built is Ok,
    {
        let scrambled = Self::word_shuffle(&word);
        match Self::answer_options(&word) {
            Ok((options, correct_index)) => Ok(
                Puzzle { scrambled, options, correct_index, answer_word: word },
            ),
            Err(e) => Err(e),
        }
    }

    /// Draws a word at random and builds the question for its upper-case
    /// form. Fails when the lexicon is empty, and when the drawn word has
    /// fewer than three distractors.
    pub fn draw_puzzle(&self) -> (drawn: Result<Puzzle, PuzzleError>)
        ensures
            match drawn {
                Ok(puzzle) => puzzle@.wf() && exists|i: int|
                    0 <= i < self@.len() && puzzle@.answer_word == uppercase_of(
                        #[trigger] self@[i],
                    ),
                Err(PuzzleError::EmptyLexicon) => self@.len() == 0,
                Err(PuzzleError::InsufficientDistractors) => exists|i: int|
                    0 <= i < self@.len() && !playable(uppercase_of(#[trigger] self@[i])),
            },
    {
        match self.random_word() {
            Ok(word) => {
                let upper = word.as_str().to_uppercase();
                proof {
                    let i = choose|i: int| 0 <= i < self@.len() && self@[i] == word@;
                    assert(upper@ == uppercase_of(self@[i]));
                }
                match Self::puzzle_for(upper) {
                    Ok(puzzle) => Ok(puzzle),
                    Err(_) => Err(PuzzleError::InsufficientDistractors),
                }
            },
            Err(_) => Err(PuzzleError::EmptyLexicon),
        }
    }
}

} // verus!
