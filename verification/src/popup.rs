//! The popup's timing: it closes by itself after a reading time that grows
//! with the translation's length.
use vstd::prelude::*;

use crate::text::{word_count, word_count_chars};

verus! {

/// The seconds the popup stays open: a third of the word count (reading at
/// some three words a second), at least five.
pub open spec fn popup_close_seconds_spec(words: nat) -> u32 {
    let third = (words as u32) / 3;
    if third > 5 {
        third
    } else {
        5
    }
}

/// The seconds the popup showing `translation` stays open.
pub fn popup_close_seconds(translation: &str) -> (r: u32)
    ensures
        r == popup_close_seconds_spec(word_count_chars(translation@)),
        r >= 5,
{
    let words = word_count(translation);
    let third = (#[verifier::truncate] (words as u32)) / 3;
    if third > 5 {
        third
    } else {
        5
    }
}

/// The reading time, over all word counts that fit in a `u32`: never under
/// five seconds; above five it is the whole number of threes in the word
/// count; and more words never shorten it.
pub proof fn lemma_reading_time(words: nat, more_words: nat)
    requires
        words <= more_words <= u32::MAX,
    ensures
        popup_close_seconds_spec(words) >= 5,
        popup_close_seconds_spec(words) > 5 ==> 3 * popup_close_seconds_spec(words) <= words < 3
            * popup_close_seconds_spec(words) + 3,
        words >= 18 ==> popup_close_seconds_spec(words) > 5,
        words < 18 ==> popup_close_seconds_spec(words) == 5,
        popup_close_seconds_spec(words) <= popup_close_seconds_spec(more_words),
{
    assert((words as u32) == words);
    assert((more_words as u32) == more_words);
}

} // verus!
