use word_quiz::puzzle::Puzzle;
use word_quiz::session::{Session, SessionStore};

fn haus() -> Puzzle {
    Puzzle {
        scrambled: "SUAH".to_string(),
        options: ['A', 'H', 'S', 'U'],
        correct_index: 1,
        answer_word: "HAUS".to_string(),
    }
}

fn baum() -> Puzzle {
    Puzzle {
        scrambled: "MUAB".to_string(),
        options: ['B', 'M', 'A', 'U'],
        correct_index: 0,
        answer_word: "BAUM".to_string(),
    }
}

#[test]
fn new_session_is_fresh() {
    let session = Session::new();
    assert!(session.open_puzzle.is_none());
    assert_eq!(session.score.correct_answered(), 0);
    assert_eq!(session.score.total_answered(), 0);
}

#[test]
fn get_or_create_gives_a_fresh_session_to_a_new_user() {
    let mut store = SessionStore::new();
    let session = store.get_or_create(7);
    assert!(session.open_puzzle.is_none());
    assert_eq!(session.score.total_answered(), 0);
    assert_eq!(session.score.correct_answered(), 0);
}

#[test]
fn sessions_are_created_on_first_use() {
    let mut store = SessionStore::new();
    assert!(!store.contains(7));
    assert_eq!(store.stats(7).total_answered(), 0);
    assert!(!store.contains(7));
    store.get_or_create(7);
    assert!(store.contains(7));
    assert!(!store.contains(8));
    store.reset_score(8);
    assert!(store.contains(8));
}

#[test]
fn get_or_create_gives_the_existing_session() {
    let mut store = SessionStore::new();
    store.record_answer(7, true);
    store.set_open_puzzle(7, haus());
    let session = store.get_or_create(7);
    assert_eq!(session.score.total_answered(), 1);
    assert_eq!(session.score.correct_answered(), 1);
    assert_eq!(session.open_puzzle.unwrap().answer_word, "HAUS");
    let again = store.get_or_create(7);
    assert_eq!(again.score.total_answered(), 1);
    assert_eq!(again.open_puzzle.unwrap().correct_index, 1);
}

#[test]
fn set_open_puzzle_replaces_the_open_puzzle() {
    let mut store = SessionStore::new();
    store.set_open_puzzle(1, haus());
    assert_eq!(store.open_puzzle(1).unwrap().answer_word, "HAUS");
    store.set_open_puzzle(1, baum());
    let open = store.open_puzzle(1).unwrap();
    assert_eq!(open.answer_word, "BAUM");
    assert_eq!(open.scrambled, "MUAB");
    assert_eq!(open.options, ['B', 'M', 'A', 'U']);
    assert_eq!(open.correct_index, 0);
    assert_eq!(store.stats(1).total_answered(), 0);
}

#[test]
fn clear_open_puzzle_leaves_the_score() {
    let mut store = SessionStore::new();
    store.record_answer(1, false);
    store.set_open_puzzle(1, haus());
    store.clear_open_puzzle(1);
    assert!(store.open_puzzle(1).is_none());
    assert_eq!(store.stats(1).total_answered(), 1);
    assert_eq!(store.stats(1).correct_answered(), 0);
    store.clear_open_puzzle(1);
    assert!(store.open_puzzle(1).is_none());
}

#[test]
fn record_answer_counts_correct_answers_only_as_correct() {
    let mut store = SessionStore::new();
    store.record_answer(1, true);
    store.record_answer(1, false);
    store.record_answer(1, true);
    assert_eq!(store.stats(1).total_answered(), 3);
    assert_eq!(store.stats(1).correct_answered(), 2);
    assert_eq!(store.stats(1).percentage(), 6667);
}

#[test]
fn record_answer_leaves_the_open_puzzle() {
    let mut store = SessionStore::new();
    store.set_open_puzzle(1, haus());
    store.record_answer(1, true);
    assert_eq!(store.open_puzzle(1).unwrap().answer_word, "HAUS");
}

#[test]
fn reset_score_leaves_the_open_puzzle() {
    let mut store = SessionStore::new();
    store.set_open_puzzle(1, haus());
    store.record_answer(1, true);
    store.record_answer(1, false);
    store.reset_score(1);
    assert_eq!(store.stats(1).total_answered(), 0);
    assert_eq!(store.stats(1).correct_answered(), 0);
    assert_eq!(store.stats(1).percentage(), 10000);
    assert_eq!(store.open_puzzle(1).unwrap().answer_word, "HAUS");
}

#[test]
fn stats_of_an_unknown_user_are_zero() {
    let store = SessionStore::new();
    assert_eq!(store.stats(99).total_answered(), 0);
    assert_eq!(store.stats(99).correct_answered(), 0);
    assert!(store.open_puzzle(99).is_none());
}

#[test]
fn sessions_of_different_users_do_not_mix() {
    let mut store = SessionStore::new();
    store.set_open_puzzle(1, haus());
    store.set_open_puzzle(-2, baum());
    store.record_answer(1, true);
    store.record_answer(-2, false);
    store.clear_open_puzzle(1);
    assert!(store.open_puzzle(1).is_none());
    assert_eq!(store.open_puzzle(-2).unwrap().answer_word, "BAUM");
    assert_eq!(store.stats(1).correct_answered(), 1);
    assert_eq!(store.stats(-2).correct_answered(), 0);
    assert_eq!(store.stats(-2).total_answered(), 1);
    store.reset_score(-2);
    assert_eq!(store.stats(1).total_answered(), 1);
}

#[test]
fn session_duplicate_is_an_equal_session() {
    let mut store = SessionStore::new();
    store.set_open_puzzle(5, haus());
    store.record_answer(5, true);
    let session = store.get_or_create(5);
    let copy = session.duplicate();
    assert_eq!(copy.score.total_answered(), 1);
    assert_eq!(copy.open_puzzle.unwrap().answer_word, "HAUS");
}
