use word_quiz::puzzle::Puzzle;
use word_quiz::text::chars_of;
use word_quiz::word_generator::{
    arrange_options, distractor_pool, EmptyLexiconError, InsufficientDistractorsError, PuzzleError,
    WordGenerator,
};

fn words_of(lexicon: &WordGenerator) -> Vec<String> {
    (0..lexicon.len()).map(|i| lexicon.word(i).clone()).collect()
}

fn loaded(text: &str) -> WordGenerator {
    WordGenerator::from_text(text).unwrap()
}

fn lexicon_of(words: &[&str]) -> WordGenerator {
    WordGenerator::new(words.iter().map(|w| w.to_string()).collect())
}

fn sorted(text: &str) -> Vec<char> {
    let mut letters: Vec<char> = text.chars().collect();
    letters.sort();
    letters
}

fn assert_valid_options(word: &str, options: &[char; 4], correct_index: usize) {
    let first = word.chars().next().unwrap();
    assert!(correct_index < 4);
    assert_eq!(options[correct_index], first);
    for i in 0..4 {
        for j in 0..4 {
            if i != j {
                assert_ne!(options[i], options[j]);
            }
        }
        if i != correct_index {
            assert_ne!(options[i], first);
            assert!(word.chars().skip(1).any(|c| c == options[i]));
        }
    }
    assert_eq!(options.iter().filter(|c| **c == first).count(), 1);
}

fn assert_valid_puzzle(puzzle: &Puzzle, word: &str) {
    assert_eq!(puzzle.answer_word, word);
    assert_eq!(sorted(&puzzle.scrambled), sorted(word));
    assert_valid_options(word, &puzzle.options, puzzle.correct_index);
}

#[test]
fn from_text_takes_one_word_per_line() {
    let lexicon = loaded("Haus\nBaum\nSchule");
    assert_eq!(lexicon.len(), 3);
    assert_eq!(words_of(&lexicon), vec!["Haus", "Baum", "Schule"]);
    assert_eq!(lexicon.word(1), "Baum");
}

#[test]
fn from_text_ignores_one_final_line_ending() {
    assert_eq!(words_of(&loaded("Haus\nBaum\n")), vec!["Haus", "Baum"]);
    assert_eq!(words_of(&loaded("Haus\n")), vec!["Haus"]);
    assert_eq!(words_of(&loaded("Haus")), vec!["Haus"]);
}

#[test]
fn from_text_rejects_a_text_without_a_line() {
    assert_eq!(WordGenerator::from_text("").err(), Some(EmptyLexiconError));
}

#[test]
fn from_text_accepts_every_text_with_a_line() {
    for text in ["\n", "\r\n", " ", "a", "\r"] {
        let lexicon = WordGenerator::from_text(text).unwrap();
        assert!(lexicon.len() > 0);
        assert!(lexicon.random_word().is_ok());
    }
}

#[test]
fn from_text_keeps_empty_lines_as_words() {
    assert_eq!(words_of(&loaded("\n")), vec![""]);
    assert_eq!(words_of(&loaded("a\n\nb")), vec!["a", "", "b"]);
    assert_eq!(words_of(&loaded("\n\n")), vec!["", ""]);
}

#[test]
fn from_text_drops_a_carriage_return_before_a_line_feed() {
    assert_eq!(words_of(&loaded("Haus\r\nBaum\r\n")), vec!["Haus", "Baum"]);
    assert_eq!(words_of(&loaded("a\r\r\nb")), vec!["a\r", "b"]);
    assert_eq!(words_of(&loaded("a\rb\n")), vec!["a\rb"]);
    assert_eq!(words_of(&loaded("Haus\r")), vec!["Haus\r"]);
}

#[test]
fn from_text_does_not_trim_words() {
    assert_eq!(words_of(&loaded(" Haus \n\tBaum")), vec![" Haus ", "\tBaum"]);
}

#[test]
fn from_text_splits_as_the_standard_library_does() {
    for text in [
        "\n", "\r\n", "\r", "a", "a\n", "a\r\n", "a\r", "a\nb", "a\n\nb\n", "\na", "a\r\n\r\nb",
        "Äpfel\nÖl\r\nÜbung", "x\n\r", "x\r\n\r",
    ] {
        let expected: Vec<String> = text.lines().map(|line| line.to_string()).collect();
        assert_eq!(words_of(&loaded(text)), expected, "for {:?}", text);
    }
}

#[test]
fn new_keeps_the_words_in_order() {
    let lexicon = lexicon_of(&["eins", "zwei"]);
    assert_eq!(lexicon.len(), 2);
    assert_eq!(lexicon.word(0), "eins");
    assert_eq!(lexicon.word(1), "zwei");
}

#[test]
fn random_word_fails_on_an_empty_lexicon() {
    assert_eq!(lexicon_of(&[]).random_word(), Err(EmptyLexiconError));
}

#[test]
fn random_word_of_one_word_is_that_word() {
    let lexicon = lexicon_of(&["Haus"]);
    for _ in 0..20 {
        assert_eq!(lexicon.random_word(), Ok("Haus".to_string()));
    }
}

#[test]
fn random_word_draws_words_of_the_lexicon_with_replacement() {
    let lexicon = lexicon_of(&["Haus", "Baum"]);
    let mut seen_haus = 0;
    let mut seen_baum = 0;
    for _ in 0..200 {
        let word = lexicon.random_word().unwrap();
        match word.as_str() {
            "Haus" => seen_haus += 1,
            "Baum" => seen_baum += 1,
            other => panic!("{:?} is no word of the lexicon", other),
        }
    }
    assert!(seen_haus > 0);
    assert!(seen_baum > 0);
    assert_eq!(lexicon.len(), 2);
}

#[test]
fn word_shuffle_keeps_the_letters_and_their_counts() {
    for word in ["HAUS", "BANANE", "AAAB", "STRASSE", "ÜBUNG", "X", ""] {
        for _ in 0..20 {
            let scrambled = WordGenerator::word_shuffle(&word.to_string());
            assert_eq!(sorted(&scrambled), sorted(word));
            assert_eq!(scrambled.chars().count(), word.chars().count());
        }
    }
}

#[test]
fn word_shuffle_of_a_single_letter_is_the_letter() {
    assert_eq!(WordGenerator::word_shuffle(&"Q".to_string()), "Q");
    assert_eq!(WordGenerator::word_shuffle(&String::new()), "");
}

#[test]
fn word_shuffle_changes_the_order_sooner_or_later() {
    let word = "ABCDEFGHIJKLMNOP".to_string();
    let changed = (0..50).any(|_| WordGenerator::word_shuffle(&word) != word);
    assert!(changed);
}

#[test]
fn distractor_pool_holds_each_other_letter_once() {
    assert_eq!(distractor_pool(&chars_of("BANANA")), vec!['A', 'N']);
    assert_eq!(distractor_pool(&chars_of("HAUS")), vec!['A', 'U', 'S']);
    assert_eq!(distractor_pool(&chars_of("OTTO")), vec!['T']);
    assert_eq!(distractor_pool(&chars_of("SCHULE")), vec!['C', 'H', 'U', 'L', 'E']);
    assert_eq!(distractor_pool(&chars_of("ABCABC")), vec!['B', 'C']);
    assert_eq!(distractor_pool(&chars_of("A")), Vec::<char>::new());
    assert_eq!(distractor_pool(&chars_of("")), Vec::<char>::new());
}

#[test]
fn distractor_pool_tells_upper_case_from_lower_case() {
    assert_eq!(distractor_pool(&chars_of("Anna")), vec!['n', 'a']);
}

#[test]
fn arrange_options_finds_the_first_letter() {
    assert_eq!(
        arrange_options(&vec!['U', 'S', 'H', 'A'], 'H'),
        Some((['U', 'S', 'H', 'A'], 2))
    );
    assert_eq!(
        arrange_options(&vec!['H', 'S', 'U', 'A'], 'H'),
        Some((['H', 'S', 'U', 'A'], 0))
    );
    assert_eq!(
        arrange_options(&vec!['A', 'S', 'U', 'H'], 'H'),
        Some((['A', 'S', 'U', 'H'], 3))
    );
}

#[test]
fn arrange_options_wants_four_letters_with_the_first_among_them() {
    assert_eq!(arrange_options(&vec!['U', 'S', 'A'], 'A'), None);
    assert_eq!(arrange_options(&vec!['U', 'S', 'A', 'H', 'X'], 'H'), None);
    assert_eq!(arrange_options(&vec!['U', 'S', 'A', 'X'], 'H'), None);
    assert_eq!(arrange_options(&Vec::new(), 'H'), None);
}

#[test]
fn answer_options_are_four_distinct_letters_with_the_first_letter_once() {
    for word in ["HAUS", "SCHULE", "BANANEN", "STRASSE", "ÜBUNGEN", "ABCD", "ABACAD"] {
        for _ in 0..50 {
            let built = WordGenerator::answer_options(&word.to_string());
            let (options, correct_index) = built.unwrap();
            assert_valid_options(word, &options, correct_index);
        }
    }
}

#[test]
fn answer_options_with_exactly_three_distractors_use_them_all() {
    for _ in 0..50 {
        let (options, correct_index) = WordGenerator::answer_options(&"HAUS".to_string()).unwrap();
        assert_eq!(sorted(&options.iter().collect::<String>()), vec!['A', 'H', 'S', 'U']);
        assert_eq!(options[correct_index], 'H');
    }
}

#[test]
fn answer_options_put_the_right_choice_at_every_place() {
    let mut seen = [false; 4];
    for _ in 0..400 {
        let (_, correct_index) = WordGenerator::answer_options(&"SCHULE".to_string()).unwrap();
        seen[correct_index] = true;
    }
    assert_eq!(seen, [true; 4]);
}

#[test]
fn answer_options_fail_with_fewer_than_three_distractors() {
    for word in ["", "A", "AB", "ABC", "BANANA", "OTTO", "AAAA", "ABAB", "ABCA"] {
        assert_eq!(
            WordGenerator::answer_options(&word.to_string()),
            Err(InsufficientDistractorsError),
            "for {:?}",
            word
        );
    }
}

#[test]
fn puzzle_for_builds_a_valid_question() {
    for _ in 0..50 {
        let puzzle = WordGenerator::puzzle_for("SCHULE".to_string()).unwrap();
        assert_valid_puzzle(&puzzle, "SCHULE");
    }
}

#[test]
fn puzzle_for_fails_with_fewer_than_three_distractors() {
    assert_eq!(
        WordGenerator::puzzle_for("OTTO".to_string()).err(),
        Some(InsufficientDistractorsError)
    );
    assert_eq!(
        WordGenerator::puzzle_for(String::new()).err(),
        Some(InsufficientDistractorsError)
    );
}

#[test]
fn draw_puzzle_asks_for_the_upper_case_word() {
    let lexicon = lexicon_of(&["apfel"]);
    for _ in 0..20 {
        let puzzle = lexicon.draw_puzzle().unwrap();
        assert_valid_puzzle(&puzzle, "APFEL");
    }
}

#[test]
fn draw_puzzle_counts_distractors_in_upper_case() {
    // "AaBb" has three distractors as it stands, "AABB" has one.
    assert_eq!(
        lexicon_of(&["AaBb"]).draw_puzzle().err(),
        Some(PuzzleError::InsufficientDistractors)
    );
    // "straße" becomes "STRASSE".
    let puzzle = lexicon_of(&["straße"]).draw_puzzle().unwrap();
    assert_valid_puzzle(&puzzle, "STRASSE");
}

#[test]
fn draw_puzzle_fails_on_an_empty_lexicon() {
    assert_eq!(lexicon_of(&[]).draw_puzzle().err(), Some(PuzzleError::EmptyLexicon));
}

#[test]
fn draw_puzzle_fails_on_a_word_that_is_not_playable() {
    assert_eq!(
        lexicon_of(&["Otto"]).draw_puzzle().err(),
        Some(PuzzleError::InsufficientDistractors)
    );
}

#[test]
fn puzzle_duplicate_is_an_equal_puzzle() {
    let puzzle = Puzzle {
        scrambled: "SUAH".to_string(),
        options: ['A', 'H', 'S', 'U'],
        correct_index: 1,
        answer_word: "HAUS".to_string(),
    };
    let copy = puzzle.duplicate();
    assert_eq!(copy.scrambled, "SUAH");
    assert_eq!(copy.options, ['A', 'H', 'S', 'U']);
    assert_eq!(copy.correct_index, 1);
    assert_eq!(copy.answer_word, "HAUS");
}
