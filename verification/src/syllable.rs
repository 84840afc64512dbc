//! Syllable blocks: the character that a leading consonant, a vowel and an
//! optional trailing consonant make together.

use crate::jamo::{lead_valid, vowel_valid, LEAD_COUNT, TAIL_COUNT, VOWEL_COUNT};
use crate::unicode::scalar;
use vstd::prelude::*;

verus! {

/// Code point of the first syllable block (HANGUL SYLLABLE GA).
pub const SYLLABLE_BASE: u32 = 0xAC00;

/// Code point of the last syllable block (HANGUL SYLLABLE HIH).
pub const SYLLABLE_LAST: u32 = 0xD7A3;

/// Whether three numbers name the letters of a syllable. The trailing
/// consonant may be 0, for none.
pub open spec fn parts_valid(lead: u8, vowel: u8, tail: u8) -> bool {
    lead_valid(lead) && vowel_valid(vowel) && tail < TAIL_COUNT
}

/// The code point of the syllable block made of the three letters.
pub open spec fn syllable_code(lead: u8, vowel: u8, tail: u8) -> int {
    SYLLABLE_BASE + (lead * 21 + vowel) * 28 + tail
}

/// The syllable block made of the three letters.
pub open spec fn syllable(lead: u8, vowel: u8, tail: u8) -> char {
    syllable_code(lead, vowel, tail) as char
}

/// Every syllable lies in the block of Hangul syllables, so it is a character.
pub proof fn lemma_syllable_in_block(lead: u8, vowel: u8, tail: u8)
    requires
        parts_valid(lead, vowel, tail),
    ensures
        SYLLABLE_BASE <= syllable_code(lead, vowel, tail) <= SYLLABLE_LAST,
        syllable(lead, vowel, tail) as int == syllable_code(lead, vowel, tail),
{
}

/// Different letters make different syllables.
pub proof fn lemma_syllable_unique(l1: u8, v1: u8, t1: u8, l2: u8, v2: u8, t2: u8)
    requires
        parts_valid(l1, v1, t1),
        parts_valid(l2, v2, t2),
        syllable(l1, v1, t1) == syllable(l2, v2, t2),
    ensures
        l1 == l2,
        v1 == v2,
        t1 == t2,
{
    lemma_syllable_in_block(l1, v1, t1);
    lemma_syllable_in_block(l2, v2, t2);
}

/// Composes a syllable block. `None` when a number names no letter.
pub fn syllable_of(lead: u8, vowel: u8, tail: u8) -> (c: Option<char>)
    ensures
        c == if parts_valid(lead, vowel, tail) {
            Some(syllable(lead, vowel, tail))
        } else {
            None
        },
{
    if lead < LEAD_COUNT && vowel < VOWEL_COUNT && tail < TAIL_COUNT {
        let code: u32 = SYLLABLE_BASE + (lead as u32 * 21 + vowel as u32) * 28 + tail as u32;
        Some(scalar(code))
    } else {
        None
    }
}

} // verus!
