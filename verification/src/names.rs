use crate::store::{has_id, Data, Entry};
use rand::seq::SliceRandom;
use vstd::prelude::*;

verus! {

/// Whether `name` is one of `words`.
pub open spec fn is_word(words: Seq<String>, name: Seq<char>) -> bool {
    exists|i: int| 0 <= i < words.len() && (#[trigger] words[i])@ == name
}

/// rand's `choose` on the words as a slice, with the generator of the thread: one of
/// the words, whichever, and none only where there are no words.
#[verifier::external_body]
fn choose_word(words: &Vec<String>) -> (r: Option<&String>)
    ensures
        r is None <==> words@.len() == 0,
        r matches Some(word) ==> is_word(words@, word@),
{
    words.choose(&mut rand::thread_rng())
}

/// What becomes of a word that was drawn: it is the name of the new task unless an
/// entry goes by it already.
pub fn accept_candidate(data: &Data, candidate: Option<&String>) -> (r: Option<String>)
    ensures
        r == match candidate {
            Some(word) => if has_id(data.entries@, word@) {
                None
            } else {
                Some(*word)
            },
            None => None,
        },
{
    match candidate {
        Some(word) => match data.find_index(word.as_str()) {
            Some(_) => None,
            None => Some(word.clone()),
        },
        None => None,
    }
}

/// Draws words at random until one is found that no entry goes by, and gives up after
/// `attempts` draws. Where no word is taken, the first draw is such a word.
pub fn pick_name(data: &Data, nouns: &Vec<String>, attempts: usize) -> (r: Option<String>)
    ensures
        r matches Some(name) ==> is_word(nouns@, name@) && !has_id(data.entries@, name@),
        nouns@.len() == 0 || attempts == 0 ==> r is None,
        nouns@.len() > 0 && attempts > 0 && none_taken(data.entries@, nouns@) ==> r is Some,
{
    let mut left = attempts;
    while left > 0
        invariant
            left <= attempts,
            nouns@.len() > 0 && none_taken(data.entries@, nouns@) ==> left == attempts,
        decreases left,
    {
        let candidate = choose_word(nouns);
        if candidate.is_none() {
            return None;
        }
        match accept_candidate(data, candidate) {
            Some(name) => {
                return Some(name);
            },
            None => {
                // The word that was drawn is taken, so not every word is free.
                assert(!none_taken(data.entries@, nouns@)) by {
                    let word = candidate->0@;
                    let i = choose|i: int| 0 <= i < nouns@.len() && (#[trigger] nouns@[i])@ == word;
                    assert(has_id(data.entries@, nouns@[i]@));
                }
            },
        }
        left -= 1;
    }
    None
}

/// Whether no entry goes by any of `words`.
pub open spec fn none_taken(entries: Seq<Entry>, words: Seq<String>) -> bool {
    forall|i: int| 0 <= i < words.len() ==> !has_id(entries, (#[trigger] words[i])@)
}

} // verus!
