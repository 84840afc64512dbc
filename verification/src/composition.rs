//! The syllable under composition and how each letter changes it.

use crate::jamo::{
    compound_tail, compound_vowel, divide_tail, double_lead, doubled_lead, join_tails,
    join_vowels, lead_jamo, lead_letter, lead_valid, split_tail, tail_of_lead, trailing_form,
    vowel_jamo, vowel_letter, vowel_valid,
};
use crate::result::{InputResult, InputResultType};
use crate::syllable::{parts_valid, syllable, syllable_of};
use vstd::prelude::*;

verus! {

/// The letters typed so far that are not committed yet.
#[derive(Clone, Copy, Debug, PartialEq, Eq)]
pub enum Composition {
    /// Nothing is pending.
    Empty,
    /// A leading consonant alone.
    Lead(u8),
    /// A vowel without a consonant before it.
    Vowel(u8),
    /// A leading consonant, a vowel and a trailing consonant, 0 for none.
    Syllable(u8, u8, u8),
}

impl Composition {
    /// Every number names a letter.
    pub open spec fn wf(self) -> bool {
        match self {
            Composition::Empty => true,
            Composition::Lead(lead) => lead_valid(lead),
            Composition::Vowel(vowel) => vowel_valid(vowel),
            Composition::Syllable(lead, vowel, tail) => parts_valid(lead, vowel, tail),
        }
    }

    /// The character that shows the pending letters, `None` when nothing is pending.
    pub open spec fn shown(self) -> Option<char> {
        match self {
            Composition::Empty => None,
            Composition::Lead(lead) => Some(lead_jamo(lead)),
            Composition::Vowel(vowel) => Some(vowel_jamo(vowel)),
            Composition::Syllable(lead, vowel, tail) => Some(syllable(lead, vowel, tail)),
        }
    }

    /// The composition and the answer after a consonant. The consonant joins
    /// the pending letters where it can: it doubles a lone leading consonant
    /// (only where `doubling` is on), becomes the trailing consonant of an
    /// open syllable, or makes a cluster with the trailing consonant. Where
    /// it cannot, the pending letters are committed and it starts anew.
    pub open spec fn after_consonant(self, doubling: bool, lead: u8) -> (Composition, InputResult) {
        match self {
            Composition::Empty => (Composition::Lead(lead), InputResult::preedit(lead_jamo(lead))),
            Composition::Lead(first) => {
                if doubling && double_lead(first, lead) is Some {
                    let doubled = double_lead(first, lead).unwrap();
                    (Composition::Lead(doubled), InputResult::preedit(lead_jamo(doubled)))
                } else {
                    (
                        Composition::Lead(lead),
                        InputResult::commit_preedit(lead_jamo(first), lead_jamo(lead)),
                    )
                }
            },
            Composition::Vowel(vowel) => (
                Composition::Lead(lead),
                InputResult::commit_preedit(vowel_jamo(vowel), lead_jamo(lead)),
            ),
            Composition::Syllable(first, vowel, tail) => {
                let joined = if tail == 0 {
                    tail_of_lead(lead)
                } else {
                    join_tails(tail, lead)
                };
                match joined {
                    Some(closed) => (
                        Composition::Syllable(first, vowel, closed),
                        InputResult::preedit(syllable(first, vowel, closed)),
                    ),
                    None => (
                        Composition::Lead(lead),
                        InputResult::commit_preedit(
                            syllable(first, vowel, tail),
                            lead_jamo(lead),
                        ),
                    ),
                }
            },
        }
    }

    /// The composition and the answer after a vowel. The vowel follows a
    /// lone leading consonant, or makes a compound with the vowel of an open
    /// syllable or with a lone vowel. From a closed syllable it takes the
    /// last consonant away to open the next syllable with it. Where none of
    /// this applies, the pending letters are committed and it starts anew.
    pub open spec fn after_vowel(self, vowel: u8) -> (Composition, InputResult) {
        match self {
            Composition::Empty => (
                Composition::Vowel(vowel),
                InputResult::preedit(vowel_jamo(vowel)),
            ),
            Composition::Lead(lead) => (
                Composition::Syllable(lead, vowel, 0),
                InputResult::preedit(syllable(lead, vowel, 0)),
            ),
            Composition::Vowel(first) => match join_vowels(first, vowel) {
                Some(joined) => (
                    Composition::Vowel(joined),
                    InputResult::preedit(vowel_jamo(joined)),
                ),
                None => (
                    Composition::Vowel(vowel),
                    InputResult::commit_preedit(vowel_jamo(first), vowel_jamo(vowel)),
                ),
            },
            Composition::Syllable(lead, first, tail) => {
                if tail == 0 {
                    match join_vowels(first, vowel) {
                        Some(joined) => (
                            Composition::Syllable(lead, joined, 0),
                            InputResult::preedit(syllable(lead, joined, 0)),
                        ),
                        None => (
                            Composition::Vowel(vowel),
                            InputResult::commit_preedit(
                                syllable(lead, first, 0),
                                vowel_jamo(vowel),
                            ),
                        ),
                    }
                } else {
                    let (stays, next) = split_tail(tail);
                    (
                        Composition::Syllable(next, vowel, 0),
                        InputResult::commit_preedit(
                            syllable(lead, first, stays),
                            syllable(next, vowel, 0),
                        ),
                    )
                }
            },
        }
    }

    /// The composition and the answer after a character that is text of its
    /// own: what was pending is committed in front of it.
    pub open spec fn after_symbol(self, symbol: char) -> (Composition, InputResult) {
        match self.shown() {
            None => (Composition::Empty, InputResult::commit(symbol)),
            Some(pending) => (Composition::Empty, InputResult::commit_commit(pending, symbol)),
        }
    }

    /// The composition and the answer after a key that passes the engine by:
    /// what was pending is committed, and the key goes on to the application.
    pub open spec fn after_pass(self, latin: Option<char>) -> (Composition, InputResult) {
        match self.shown() {
            None => (self, InputResult::bypass(latin)),
            Some(pending) => (Composition::Empty, InputResult::commit_bypass(pending, latin)),
        }
    }

    /// The character that shows the pending letters.
    pub(crate) fn display(self) -> (c: Option<char>)
        requires
            self.wf(),
        ensures
            c == self.shown(),
    {
        match self {
            Composition::Empty => None,
            Composition::Lead(lead) => Some(lead_letter(lead)),
            Composition::Vowel(vowel) => Some(vowel_letter(vowel)),
            Composition::Syllable(lead, vowel, tail) => Some(block(lead, vowel, tail)),
        }
    }

    pub(crate) fn add_consonant(self, doubling: bool, lead: u8) -> (next: (
        Composition,
        InputResult,
    ))
        requires
            self.wf(),
            lead_valid(lead),
        ensures
            next == self.after_consonant(doubling, lead),
            next.0.wf(),
    {
        match self {
            Composition::Empty => (Composition::Lead(lead), preedit(lead_letter(lead))),
            Composition::Lead(first) => {
                let doubled = if doubling {
                    doubled_lead(first, lead)
                } else {
                    None
                };
                match doubled {
                    Some(doubled) => (Composition::Lead(doubled), preedit(lead_letter(doubled))),
                    None => (
                        Composition::Lead(lead),
                        commit_preedit(lead_letter(first), lead_letter(lead)),
                    ),
                }
            },
            Composition::Vowel(vowel) => (
                Composition::Lead(lead),
                commit_preedit(vowel_letter(vowel), lead_letter(lead)),
            ),
            Composition::Syllable(first, vowel, tail) => {
                let joined = if tail == 0 {
                    trailing_form(lead)
                } else {
                    compound_tail(tail, lead)
                };
                match joined {
                    Some(closed) => (
                        Composition::Syllable(first, vowel, closed),
                        preedit(block(first, vowel, closed)),
                    ),
                    None => (
                        Composition::Lead(lead),
                        commit_preedit(block(first, vowel, tail), lead_letter(lead)),
                    ),
                }
            },
        }
    }

    pub(crate) fn add_vowel(self, vowel: u8) -> (next: (Composition, InputResult))
        requires
            self.wf(),
            vowel_valid(vowel),
        ensures
            next == self.after_vowel(vowel),
            next.0.wf(),
    {
        match self {
            Composition::Empty => (Composition::Vowel(vowel), preedit(vowel_letter(vowel))),
            Composition::Lead(lead) => (
                Composition::Syllable(lead, vowel, 0),
                preedit(block(lead, vowel, 0)),
            ),
            Composition::Vowel(first) => match compound_vowel(first, vowel) {
                Some(joined) => (Composition::Vowel(joined), preedit(vowel_letter(joined))),
                None => (
                    Composition::Vowel(vowel),
                    commit_preedit(vowel_letter(first), vowel_letter(vowel)),
                ),
            },
            Composition::Syllable(lead, first, tail) => {
                if tail == 0 {
                    match compound_vowel(first, vowel) {
                        Some(joined) => (
                            Composition::Syllable(lead, joined, 0),
                            preedit(block(lead, joined, 0)),
                        ),
                        None => (
                            Composition::Vowel(vowel),
                            commit_preedit(block(lead, first, 0), vowel_letter(vowel)),
                        ),
                    }
                } else {
                    let (stays, next) = divide_tail(tail);
                    (
                        Composition::Syllable(next, vowel, 0),
                        commit_preedit(block(lead, first, stays), block(next, vowel, 0)),
                    )
                }
            },
        }
    }

    pub(crate) fn add_symbol(self, symbol: char) -> (next: (Composition, InputResult))
        requires
            self.wf(),
        ensures
            next == self.after_symbol(symbol),
            next.0.wf(),
    {
        match self.display() {
            None => (
                Composition::Empty,
                InputResult { ty: InputResultType::Commit, char1: Some(symbol), char2: None },
            ),
            Some(pending) => (
                Composition::Empty,
                InputResult {
                    ty: InputResultType::CommitCommit,
                    char1: Some(pending),
                    char2: Some(symbol),
                },
            ),
        }
    }

    pub(crate) fn pass(self, latin: Option<char>) -> (next: (Composition, InputResult))
        requires
            self.wf(),
        ensures
            next == self.after_pass(latin),
            next.0.wf(),
    {
        match self.display() {
            None => (self, InputResult { ty: InputResultType::Bypass, char1: latin, char2: None }),
            Some(pending) => (
                Composition::Empty,
                InputResult {
                    ty: InputResultType::CommitBypass,
                    char1: Some(pending),
                    char2: latin,
                },
            ),
        }
    }
}

/// The syllable block of three letters that are known to be valid.
fn block(lead: u8, vowel: u8, tail: u8) -> (c: char)
    requires
        parts_valid(lead, vowel, tail),
    ensures
        c == syllable(lead, vowel, tail),
{
    match syllable_of(lead, vowel, tail) {
        Some(c) => c,
        None => vstd::pervasive::unreached(),
    }
}

fn preedit(shown: char) -> (r: InputResult)
    ensures
        r == InputResult::preedit(shown),
{
    InputResult { ty: InputResultType::Preedit, char1: Some(shown), char2: None }
}

fn commit_preedit(done: char, shown: char) -> (r: InputResult)
    ensures
        r == InputResult::commit_preedit(done, shown),
{
    InputResult { ty: InputResultType::CommitPreedit, char1: Some(done), char2: Some(shown) }
}

} // verus!
