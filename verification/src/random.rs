//! The random choices the quiz makes, taken from the `rand` crate. Nothing in
//! this file is proved: each contract states what the source of `rand` shows
//! of every outcome, whatever the generator yields.

use rand::rngs::ThreadRng;
use rand::seq::SliceRandom;
use vstd::prelude::*;

verus! {

/// `rand::rngs::ThreadRng`, the handle to the generator of the current thread.
#[verifier::external_type_specification]
#[verifier::external_body]
pub struct ExThreadRng(ThreadRng);

/// `rand::thread_rng` hands out the generator of the current thread. Nothing
/// is claimed of it. The call stops the program if the system cannot seed the
/// generator.
pub assume_specification[ rand::thread_rng ]() -> (rng: ThreadRng)
;

/// `picked` is what a draw from `words` may give: nothing when there are no
/// words, otherwise one of them.
pub open spec fn drawn_from(words: Seq<String>, picked: Option<String>) -> bool {
    match picked {
        None => words.len() == 0,
        Some(word) => exists|i: int| 0 <= i < words.len() && (#[trigger] words[i])@ == word@,
    }
}

/// `chosen` holds what stands at the places `indices` of `letters`, and no
/// place is named twice.
pub open spec fn taken_at(letters: Seq<char>, indices: Seq<int>, chosen: Seq<char>) -> bool {
    &&& indices.len() == chosen.len()
    &&& indices.no_duplicates()
    &&& forall|k: int|
        0 <= k < indices.len() ==> 0 <= #[trigger] indices[k] < letters.len() && chosen[k]
            == letters[indices[k]]
}

/// `chosen` is a selection of `amount` of the `letters` (of all of them if
/// there are fewer), taken from different places, in any order.
pub open spec fn selection_of(letters: Seq<char>, amount: nat, chosen: Seq<char>) -> bool {
    &&& chosen.len() == if amount <= letters.len() {
        amount
    } else {
        letters.len()
    }
    &&& exists|indices: Seq<int>| taken_at(letters, indices, chosen)
}

/// `SliceRandom::choose` on the words: nothing when there are no words,
/// otherwise a copy of one of them, at an index that the generator picks.
#[verifier::external_body]
pub(crate) fn choose_word(words: &Vec<String>, rng: &mut ThreadRng) -> (picked: Option<String>)
    ensures
        drawn_from(words@, picked),
{
    words.choose(rng).cloned()
}

/// `SliceRandom::choose_multiple` on the letters, collected: `amount` of them
/// (all of them if there are fewer), taken from different places of `letters`,
/// in an order that the generator picks. For a slice longer than `u32::MAX`
/// the crate's sampling asks that `amount` stay below the length, which the
/// bound on `amount` provides.
#[verifier::external_body]
pub(crate) fn choose_letters(
    letters: &Vec<char>,
    rng: &mut ThreadRng,
    amount: usize,
) -> (chosen: Vec<char>)
    requires
        amount <= u32::MAX,
    ensures
        selection_of(letters@, amount as nat, chosen@),
{
    letters.choose_multiple(rng, amount).cloned().collect()
}

/// `SliceRandom::shuffle` on the letters: afterwards they are the same letters,
/// each as often as before, in an order that the generator picks.
#[verifier::external_body]
pub(crate) fn shuffle_letters(letters: &mut Vec<char>, rng: &mut ThreadRng)
    ensures
        final(letters)@.to_multiset() == old(letters)@.to_multiset(),
{
    letters.shuffle(rng);
}

} // verus!
