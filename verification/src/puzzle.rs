//! One question of the quiz: a scrambled word and four lettered choices for
//! its first letter.

use vstd::prelude::*;

verus! {

/// `c` may be offered as a wrong choice for `word`: a letter of the word that
/// differs from its first letter.
pub open spec fn is_distractor(word: Seq<char>, c: char) -> bool {
    word.len() > 0 && c != word[0] && word.contains(c)
}

/// The letters of `word[1..n]` that differ from its first letter, each once,
/// in the order in which they first occur.
pub open spec fn distractors_upto(word: Seq<char>, n: int) -> Seq<char>
    decreases n,
{
    if n <= 1 {
        Seq::empty()
    } else {
        let before = distractors_upto(word, n - 1);
        let c = word[n - 1];
        if c == word[0] || before.contains(c) {
            before
        } else {
            before.push(c)
        }
    }
}

/// The letters of `word` that may be offered as wrong choices: those that
/// differ from its first letter, each once, in the order in which they first
/// occur.
pub open spec fn distractors(word: Seq<char>) -> Seq<char> {
    distractors_upto(word, word.len() as int)
}

/// `scrambled` holds the letters of `word`, each as often as the word does,
/// in any order.
pub open spec fn is_scramble_of(word: Seq<char>, scrambled: Seq<char>) -> bool {
    scrambled.to_multiset() == word.to_multiset()
}

/// `options` are four different letters, the one at `correct_index` is the
/// first letter of `word`, and the other three are distractors of `word`.
pub open spec fn valid_options(word: Seq<char>, options: Seq<char>, correct_index: int) -> bool {
    &&& word.len() > 0
    &&& options.len() == 4
    &&& options.no_duplicates()
    &&& 0 <= correct_index < 4
    &&& options[correct_index] == word[0]
    &&& forall|j: int|
        0 <= j < 4 && j != correct_index ==> is_distractor(word, #[trigger] options[j])
}

/// A question: the word to guess, its letters in scrambled order, the four
/// choices for its first letter and which of them is the right one.
#[derive(Debug, Clone)]
pub struct Puzzle {
    pub scrambled: String,
    pub options: [char; 4],
    pub correct_index: usize,
    pub answer_word: String,
}

/// What a puzzle holds, as plain values.
pub struct PuzzleView {
    pub scrambled: Seq<char>,
    pub options: Seq<char>,
    pub correct_index: int,
    pub answer_word: Seq<char>,
}

impl PuzzleView {
    /// The scrambled letters are those of the answer word, and the choices
    /// are valid for it.
    pub open spec fn wf(self) -> bool {
        &&& is_scramble_of(self.answer_word, self.scrambled)
        &&& valid_options(self.answer_word, self.options, self.correct_index)
    }
}

impl View for Puzzle {
    type V = PuzzleView;

    open spec fn view(&self) -> PuzzleView {
        PuzzleView {
            scrambled: self.scrambled@,
            options: self.options@,
            correct_index: self.correct_index as int,
            answer_word: self.answer_word@,
        }
    }
}

impl Puzzle {
    /// A copy of the puzzle.
    pub fn duplicate(&self) -> (copy: Puzzle)
        ensures
            copy@ == self@,
    {
        Puzzle {
            scrambled: self.scrambled.clone(),
            options: self.options,
            correct_index: self.correct_index,
            answer_word: self.answer_word.clone(),
        }
    }
}

/// What is known of `distractors_upto(word, n)`: nothing occurs twice in it,
/// and it holds exactly the letters of `word[1..n]` that differ from the first.
pub proof fn lemma_distractors_upto(word: Seq<char>, n: int)
    requires
        0 <= n <= word.len(),
    ensures
        distractors_upto(word, n).no_duplicates(),
        distractors_upto(word, n).len() <= if n <= 1 {
            0
        } else {
            n - 1
        },
        forall|c: char|
            distractors_upto(word, n).contains(c) <==> c != word[0] && exists|j: int|
                1 <= j < n && word[j] == c,
    decreases n,
{
    if n > 1 {
        lemma_distractors_upto(word, n - 1);
        let before = distractors_upto(word, n - 1);
        let last = word[n - 1];
        let now = distractors_upto(word, n);
        assert forall|c: char| now.contains(c) <==> c != word[0] && exists|j: int|
            1 <= j < n && word[j] == c by {
            if now.contains(c) {
                if before.contains(c) {
                    let j = choose|j: int| 1 <= j < n - 1 && word[j] == c;
                    assert(1 <= j < n && word[j] == c);
                } else {
                    let k = choose|k: int| 0 <= k < now.len() && now[k] == c;
                    assert(now == before.push(last));
                    if k < before.len() {
                        assert(before[k] == c);
                        assert(before.contains(c));
                    }
                    assert(c == last);
                    assert(1 <= n - 1 < n && word[n - 1] == c);
                }
            }
            if c != word[0] && exists|j: int| 1 <= j < n && word[j] == c {
                let j = choose|j: int| 1 <= j < n && word[j] == c;
                if j < n - 1 {
                    assert(before.contains(c));
                    let k = choose|k: int| 0 <= k < before.len() && before[k] == c;
                    if now != before {
                        assert(now[k] == c);
                    }
                } else {
                    assert(c == last);
                    if !before.contains(c) {
                        assert(now[before.len() as int] == c);
                    }
                }
            }
        }
    } else {
        assert forall|c: char| distractors_upto(word, n).contains(c) <==> c != word[0]
            && exists|j: int| 1 <= j < n && word[j] == c by {}
    }
}

/// The distractors of a word are its letters other than the first letter,
/// each exactly once.
pub proof fn lemma_distractors(word: Seq<char>)
    ensures
        distractors(word).no_duplicates(),
        forall|c: char| distractors(word).contains(c) <==> is_distractor(word, c),
{
    lemma_distractors_upto(word, word.len() as int);
    assert forall|c: char| distractors(word).contains(c) <==> is_distractor(word, c) by {
        if distractors(word).contains(c) {
            let j = choose|j: int| 1 <= j < word.len() && word[j] == c;
            assert(word.contains(c));
        }
        if is_distractor(word, c) {
            let j = choose|j: int| 0 <= j < word.len() && word[j] == c;
            assert(1 <= j < word.len() && word[j] == c);
        }
    }
}

/// Letters in another order: if nothing occurs twice before, nothing does
/// after, and the same letters occur.
pub proof fn lemma_reordered_distinct(before: Seq<char>, after: Seq<char>)
    requires
        after.to_multiset() == before.to_multiset(),
        before.no_duplicates(),
    ensures
        after.no_duplicates(),
        after.len() == before.len(),
        forall|c: char| before.contains(c) <==> after.contains(c),
{
    before.to_multiset_ensures();
    after.to_multiset_ensures();
    before.lemma_multiset_has_no_duplicates();
    after.lemma_multiset_has_no_duplicates_conv();
    assert forall|c: char| before.contains(c) <==> after.contains(c) by {
        assert(before.contains(c) <==> before.to_multiset().count(c) > 0);
        assert(after.contains(c) <==> after.to_multiset().count(c) > 0);
    }
}

} // verus!
