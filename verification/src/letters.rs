//! The plain letters that text is made of.
//!
//! A doubled consonant, a consonant cluster and a compound vowel each count
//! as the two plain letters that make them. Broken down like this, what the
//! engine hands out can be held against what was typed: see `laws`.

use crate::composition::Composition;
use crate::jamo::{is_vowel_char, lead_of_char, Letter, VOWEL_BASE};
use crate::syllable::{syllable, SYLLABLE_BASE, SYLLABLE_LAST};
use vstd::prelude::*;

verus! {

/// One plain consonant.
pub open spec fn one(lead: u8) -> Seq<Letter> {
    seq![Letter::Consonant(lead)]
}

/// Two plain consonants.
pub open spec fn two(first: u8, second: u8) -> Seq<Letter> {
    seq![Letter::Consonant(first), Letter::Consonant(second)]
}

/// The plain letters of a leading consonant.
pub open spec fn lead_letters(lead: u8) -> Seq<Letter> {
    match lead {
        1 => two(0, 0),
        4 => two(3, 3),
        8 => two(7, 7),
        10 => two(9, 9),
        13 => two(12, 12),
        _ => one(lead),
    }
}

/// The plain letters of a vowel.
pub open spec fn vowel_letters(vowel: u8) -> Seq<Letter> {
    match vowel {
        9 => seq![Letter::Vowel(8), Letter::Vowel(0)],
        10 => seq![Letter::Vowel(8), Letter::Vowel(1)],
        11 => seq![Letter::Vowel(8), Letter::Vowel(20)],
        14 => seq![Letter::Vowel(13), Letter::Vowel(4)],
        15 => seq![Letter::Vowel(13), Letter::Vowel(5)],
        16 => seq![Letter::Vowel(13), Letter::Vowel(20)],
        19 => seq![Letter::Vowel(18), Letter::Vowel(20)],
        _ => seq![Letter::Vowel(vowel)],
    }
}

/// The plain letters of a trailing consonant, each by its number as a
/// leading consonant. No trailing consonant has no letters.
pub open spec fn tail_letters(tail: u8) -> Seq<Letter> {
    match tail {
        0 => Seq::empty(),
        1 => one(0),
        2 => two(0, 0),
        3 => two(0, 9),
        4 => one(2),
        5 => two(2, 12),
        6 => two(2, 18),
        7 => one(3),
        8 => one(5),
        9 => two(5, 0),
        10 => two(5, 6),
        11 => two(5, 7),
        12 => two(5, 9),
        13 => two(5, 16),
        14 => two(5, 17),
        15 => two(5, 18),
        16 => one(6),
        17 => one(7),
        18 => two(7, 9),
        19 => one(9),
        20 => two(9, 9),
        21 => one(11),
        22 => one(12),
        23 => one(14),
        24 => one(15),
        25 => one(16),
        26 => one(17),
        _ => one(18),
    }
}

/// The plain letters of a character: those of its three parts for a
/// syllable block, those of the letter for a consonant or a vowel standing
/// alone, and the character itself for anything else.
pub open spec fn char_letters(c: char) -> Seq<Letter> {
    let code = c as u32;
    if SYLLABLE_BASE <= code <= SYLLABLE_LAST {
        let at = code - SYLLABLE_BASE;
        lead_letters((at / 588) as u8) + vowel_letters((at % 588 / 28) as u8) + tail_letters(
            (at % 28) as u8,
        )
    } else if lead_of_char(c) is Some {
        lead_letters(lead_of_char(c).unwrap())
    } else if is_vowel_char(c) {
        vowel_letters((code - VOWEL_BASE) as u8)
    } else {
        seq![Letter::Symbol(c)]
    }
}

/// The plain letters of a text.
pub open spec fn text_letters(text: Seq<char>) -> Seq<Letter>
    decreases text.len(),
{
    if text.len() == 0 {
        Seq::empty()
    } else {
        text_letters(text.drop_last()) + char_letters(text.last())
    }
}

/// The plain letters that a typed letter adds.
pub open spec fn typed_letters(letter: Option<Letter>) -> Seq<Letter> {
    match letter {
        None => Seq::empty(),
        Some(Letter::Consonant(lead)) => lead_letters(lead),
        Some(Letter::Vowel(vowel)) => vowel_letters(vowel),
        Some(Letter::Symbol(symbol)) => char_letters(symbol),
    }
}

impl Composition {
    /// The plain letters that are pending.
    pub open spec fn letters(self) -> Seq<Letter> {
        match self {
            Composition::Empty => Seq::empty(),
            Composition::Lead(lead) => lead_letters(lead),
            Composition::Vowel(vowel) => vowel_letters(vowel),
            Composition::Syllable(lead, vowel, tail) => lead_letters(lead) + vowel_letters(vowel)
                + tail_letters(tail),
        }
    }
}

/// The letters of the character that shows a composition are the letters
/// that are pending.
pub proof fn lemma_shown_letters(composition: Composition)
    requires
        composition.wf(),
    ensures
        match composition.shown() {
            Some(c) => char_letters(c) == composition.letters(),
            None => composition.letters() == Seq::<Letter>::empty(),
        },
{
    match composition {
        Composition::Empty => {},
        Composition::Lead(lead) => {},
        Composition::Vowel(vowel) => {},
        Composition::Syllable(lead, vowel, tail) => {
            let code = syllable(lead, vowel, tail) as u32;
            let at = code - SYLLABLE_BASE;
            assert(at == (lead * 21 + vowel) * 28 + tail);
            assert(at / 588 == lead);
            assert(at % 588 / 28 == vowel);
            assert(at % 28 == tail);
        },
    }
}

} // verus!
