//! The letters of the Hangul alphabet and the rules by which they join.
//!
//! Letters are numbered as Unicode numbers them inside a syllable block:
//! leading consonants from 0 to 18, vowels from 0 to 20 and trailing
//! consonants from 1 to 27, with 0 standing for "no trailing consonant".

use crate::unicode::scalar;
use vstd::prelude::*;

verus! {

pub const LEAD_COUNT: u8 = 19;

pub const VOWEL_COUNT: u8 = 21;

pub const TAIL_COUNT: u8 = 28;

/// First code point of the compatibility vowels (HANGUL LETTER A).
pub const VOWEL_BASE: u32 = 0x314F;

pub open spec fn lead_valid(lead: u8) -> bool {
    lead < LEAD_COUNT
}

pub open spec fn vowel_valid(vowel: u8) -> bool {
    vowel < VOWEL_COUNT
}

/// A trailing consonant that is present: 0 is left out.
pub open spec fn tail_valid(tail: u8) -> bool {
    1 <= tail < TAIL_COUNT
}

/// What a character of the Hangul layer of a layout means to the engine.
#[derive(Clone, Copy, Debug, PartialEq, Eq)]
pub enum Letter {
    /// A consonant that can open a syllable, by its number as a leading consonant.
    Consonant(u8),
    /// A vowel, by its number.
    Vowel(u8),
    /// Any other character: it is text of its own and never part of a syllable.
    Symbol(char),
}

/// The compatibility letter that shows a leading consonant standing alone.
pub open spec fn lead_jamo(lead: u8) -> char {
    match lead {
        0 => '\u{3131}',
        1 => '\u{3132}',
        2 => '\u{3134}',
        3 => '\u{3137}',
        4 => '\u{3138}',
        5 => '\u{3139}',
        6 => '\u{3141}',
        7 => '\u{3142}',
        8 => '\u{3143}',
        9 => '\u{3145}',
        10 => '\u{3146}',
        11 => '\u{3147}',
        12 => '\u{3148}',
        13 => '\u{3149}',
        14 => '\u{314A}',
        15 => '\u{314B}',
        16 => '\u{314C}',
        17 => '\u{314D}',
        _ => '\u{314E}',
    }
}

/// The leading consonant that a compatibility letter names, if it names one.
/// The eleven consonant clusters (U+3133 and the like) cannot open a syllable.
pub open spec fn lead_of_char(c: char) -> Option<u8> {
    match c {
        '\u{3131}' => Some(0u8),
        '\u{3132}' => Some(1u8),
        '\u{3134}' => Some(2u8),
        '\u{3137}' => Some(3u8),
        '\u{3138}' => Some(4u8),
        '\u{3139}' => Some(5u8),
        '\u{3141}' => Some(6u8),
        '\u{3142}' => Some(7u8),
        '\u{3143}' => Some(8u8),
        '\u{3145}' => Some(9u8),
        '\u{3146}' => Some(10u8),
        '\u{3147}' => Some(11u8),
        '\u{3148}' => Some(12u8),
        '\u{3149}' => Some(13u8),
        '\u{314A}' => Some(14u8),
        '\u{314B}' => Some(15u8),
        '\u{314C}' => Some(16u8),
        '\u{314D}' => Some(17u8),
        '\u{314E}' => Some(18u8),
        _ => None,
    }
}

/// The compatibility letter that shows a vowel standing alone.
pub open spec fn vowel_jamo(vowel: u8) -> char {
    (VOWEL_BASE + vowel) as char
}

pub open spec fn is_vowel_char(c: char) -> bool {
    VOWEL_BASE <= (c as u32) < VOWEL_BASE + VOWEL_COUNT
}

/// How the engine reads a character of a layout's Hangul layer.
pub open spec fn letter_of_char(c: char) -> Letter {
    if let Some(lead) = lead_of_char(c) {
        Letter::Consonant(lead)
    } else if is_vowel_char(c) {
        Letter::Vowel((c as u32 - VOWEL_BASE) as u8)
    } else {
        Letter::Symbol(c)
    }
}

/// The trailing form of a leading consonant. Three doubled consonants have none.
pub open spec fn tail_of_lead(lead: u8) -> Option<u8> {
    match lead {
        0 => Some(1u8),
        1 => Some(2u8),
        2 => Some(4u8),
        3 => Some(7u8),
        5 => Some(8u8),
        6 => Some(16u8),
        7 => Some(17u8),
        9 => Some(19u8),
        10 => Some(20u8),
        11 => Some(21u8),
        12 => Some(22u8),
        14 => Some(23u8),
        15 => Some(24u8),
        16 => Some(25u8),
        17 => Some(26u8),
        18 => Some(27u8),
        _ => None,
    }
}

/// The compound vowel that `first` and `second` make when typed in this order.
pub open spec fn join_vowels(first: u8, second: u8) -> Option<u8> {
    match (first, second) {
        (8, 0) => Some(9u8),
        (8, 1) => Some(10u8),
        (8, 20) => Some(11u8),
        (13, 4) => Some(14u8),
        (13, 5) => Some(15u8),
        (13, 20) => Some(16u8),
        (18, 20) => Some(19u8),
        _ => None,
    }
}

/// The cluster that the trailing consonant `tail` makes with a following
/// consonant `lead`.
pub open spec fn join_tails(tail: u8, lead: u8) -> Option<u8> {
    match (tail, lead) {
        (1, 9) => Some(3u8),
        (4, 12) => Some(5u8),
        (4, 18) => Some(6u8),
        (8, 0) => Some(9u8),
        (8, 6) => Some(10u8),
        (8, 7) => Some(11u8),
        (8, 9) => Some(12u8),
        (8, 16) => Some(13u8),
        (8, 17) => Some(14u8),
        (8, 18) => Some(15u8),
        (17, 9) => Some(18u8),
        _ => None,
    }
}

/// What a trailing consonant gives up to a vowel that follows it: the
/// trailing part that stays with the syllable (0 for none) and the leading
/// consonant that opens the next syllable.
pub open spec fn split_tail(tail: u8) -> (u8, u8) {
    match tail {
        1 => (0u8, 0u8),
        2 => (0u8, 1u8),
        3 => (1u8, 9u8),
        4 => (0u8, 2u8),
        5 => (4u8, 12u8),
        6 => (4u8, 18u8),
        7 => (0u8, 3u8),
        8 => (0u8, 5u8),
        9 => (8u8, 0u8),
        10 => (8u8, 6u8),
        11 => (8u8, 7u8),
        12 => (8u8, 9u8),
        13 => (8u8, 16u8),
        14 => (8u8, 17u8),
        15 => (8u8, 18u8),
        16 => (0u8, 6u8),
        17 => (0u8, 7u8),
        18 => (17u8, 9u8),
        19 => (0u8, 9u8),
        20 => (0u8, 10u8),
        21 => (0u8, 11u8),
        22 => (0u8, 12u8),
        23 => (0u8, 14u8),
        24 => (0u8, 15u8),
        25 => (0u8, 16u8),
        26 => (0u8, 17u8),
        _ => (0u8, 18u8),
    }
}

/// The doubled consonant that two presses of the same plain consonant make.
pub open spec fn double_lead(first: u8, second: u8) -> Option<u8> {
    if first != second {
        None
    } else {
        match first {
            0 => Some(1u8),
            3 => Some(4u8),
            7 => Some(8u8),
            9 => Some(10u8),
            12 => Some(13u8),
            _ => None,
        }
    }
}

/// Shows a leading consonant standing alone.
pub fn lead_letter(lead: u8) -> (c: char)
    ensures
        c == lead_jamo(lead),
{
    match lead {
        0 => '\u{3131}',
        1 => '\u{3132}',
        2 => '\u{3134}',
        3 => '\u{3137}',
        4 => '\u{3138}',
        5 => '\u{3139}',
        6 => '\u{3141}',
        7 => '\u{3142}',
        8 => '\u{3143}',
        9 => '\u{3145}',
        10 => '\u{3146}',
        11 => '\u{3147}',
        12 => '\u{3148}',
        13 => '\u{3149}',
        14 => '\u{314A}',
        15 => '\u{314B}',
        16 => '\u{314C}',
        17 => '\u{314D}',
        _ => '\u{314E}',
    }
}

/// Reads a compatibility letter as a leading consonant.
pub fn lead_of_letter(c: char) -> (lead: Option<u8>)
    ensures
        lead == lead_of_char(c),
{
    match c {
        '\u{3131}' => Some(0u8),
        '\u{3132}' => Some(1u8),
        '\u{3134}' => Some(2u8),
        '\u{3137}' => Some(3u8),
        '\u{3138}' => Some(4u8),
        '\u{3139}' => Some(5u8),
        '\u{3141}' => Some(6u8),
        '\u{3142}' => Some(7u8),
        '\u{3143}' => Some(8u8),
        '\u{3145}' => Some(9u8),
        '\u{3146}' => Some(10u8),
        '\u{3147}' => Some(11u8),
        '\u{3148}' => Some(12u8),
        '\u{3149}' => Some(13u8),
        '\u{314A}' => Some(14u8),
        '\u{314B}' => Some(15u8),
        '\u{314C}' => Some(16u8),
        '\u{314D}' => Some(17u8),
        '\u{314E}' => Some(18u8),
        _ => None,
    }
}

/// Gives the trailing form of a leading consonant.
pub fn trailing_form(lead: u8) -> (tail: Option<u8>)
    ensures
        tail == tail_of_lead(lead),
{
    match lead {
        0 => Some(1u8),
        1 => Some(2u8),
        2 => Some(4u8),
        3 => Some(7u8),
        5 => Some(8u8),
        6 => Some(16u8),
        7 => Some(17u8),
        9 => Some(19u8),
        10 => Some(20u8),
        11 => Some(21u8),
        12 => Some(22u8),
        14 => Some(23u8),
        15 => Some(24u8),
        16 => Some(25u8),
        17 => Some(26u8),
        18 => Some(27u8),
        _ => None,
    }
}

/// Joins two vowels typed one after the other.
pub fn compound_vowel(first: u8, second: u8) -> (joined: Option<u8>)
    ensures
        joined == join_vowels(first, second),
{
    match (first, second) {
        (8, 0) => Some(9u8),
        (8, 1) => Some(10u8),
        (8, 20) => Some(11u8),
        (13, 4) => Some(14u8),
        (13, 5) => Some(15u8),
        (13, 20) => Some(16u8),
        (18, 20) => Some(19u8),
        _ => None,
    }
}

/// Joins a trailing consonant with the consonant typed after it.
pub fn compound_tail(tail: u8, lead: u8) -> (joined: Option<u8>)
    ensures
        joined == join_tails(tail, lead),
{
    match (tail, lead) {
        (1, 9) => Some(3u8),
        (4, 12) => Some(5u8),
        (4, 18) => Some(6u8),
        (8, 0) => Some(9u8),
        (8, 6) => Some(10u8),
        (8, 7) => Some(11u8),
        (8, 9) => Some(12u8),
        (8, 16) => Some(13u8),
        (8, 17) => Some(14u8),
        (8, 18) => Some(15u8),
        (17, 9) => Some(18u8),
        _ => None,
    }
}

/// Divides a trailing consonant before a vowel.
pub fn divide_tail(tail: u8) -> (parts: (u8, u8))
    ensures
        parts == split_tail(tail),
{
    match tail {
        1 => (0u8, 0u8),
        2 => (0u8, 1u8),
        3 => (1u8, 9u8),
        4 => (0u8, 2u8),
        5 => (4u8, 12u8),
        6 => (4u8, 18u8),
        7 => (0u8, 3u8),
        8 => (0u8, 5u8),
        9 => (8u8, 0u8),
        10 => (8u8, 6u8),
        11 => (8u8, 7u8),
        12 => (8u8, 9u8),
        13 => (8u8, 16u8),
        14 => (8u8, 17u8),
        15 => (8u8, 18u8),
        16 => (0u8, 6u8),
        17 => (0u8, 7u8),
        18 => (17u8, 9u8),
        19 => (0u8, 9u8),
        20 => (0u8, 10u8),
        21 => (0u8, 11u8),
        22 => (0u8, 12u8),
        23 => (0u8, 14u8),
        24 => (0u8, 15u8),
        25 => (0u8, 16u8),
        26 => (0u8, 17u8),
        _ => (0u8, 18u8),
    }
}

/// Doubles a plain consonant that was pressed twice.
pub fn doubled_lead(first: u8, second: u8) -> (doubled: Option<u8>)
    ensures
        doubled == double_lead(first, second),
{
    if first != second {
        None
    } else {
        match first {
            0 => Some(1u8),
            3 => Some(4u8),
            7 => Some(8u8),
            9 => Some(10u8),
            12 => Some(13u8),
            _ => None,
        }
    }
}

/// Shows a vowel standing alone.
pub fn vowel_letter(vowel: u8) -> (c: char)
    ensures
        c == vowel_jamo(vowel),
{
    let code: u32 = VOWEL_BASE + vowel as u32;
    scalar(code)
}

/// Reads a character of a layout's Hangul layer.
pub fn read_letter(c: char) -> (letter: Letter)
    ensures
        letter == letter_of_char(c),
{
    let code: u32 = c as u32;
    if let Some(lead) = lead_of_letter(c) {
        Letter::Consonant(lead)
    } else if VOWEL_BASE <= code && code < VOWEL_BASE + VOWEL_COUNT as u32 {
        Letter::Vowel((code - VOWEL_BASE) as u8)
    } else {
        Letter::Symbol(c)
    }
}

} // verus!
