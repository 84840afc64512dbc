//! What the engine answers to a key press.

use vstd::prelude::*;

verus! {

/// The tag of an answer. It tells the host what to do with the key and with
/// the two characters of the [`InputResult`].
#[derive(Clone, Copy, Debug, PartialEq, Eq)]
pub enum InputResultType {
    /// The key means nothing to the engine and nothing changed: pass the key
    /// on. `char1` holds the key's Latin legend, if the layout has one.
    Bypass,
    /// The key went into the syllable under composition: show `char1` as the
    /// new preedit text.
    Preedit,
    /// `char1` is finished text: commit it. Nothing is left under composition.
    Commit,
    /// The composition ended on a key that means nothing to the engine:
    /// commit `char1`, then pass the key on. `char2` holds the key's Latin
    /// legend, if the layout has one.
    CommitBypass,
    /// The key closed one syllable and opened the next: commit `char1` and
    /// show `char2` as the new preedit text.
    CommitPreedit,
    /// The key closed the syllable and gave finished text of its own: commit
    /// `char1`, then `char2`.
    CommitCommit,
}

/// The answer to one key press. It is a value of its own: it borrows nothing
/// from the engine or the configuration that produced it.
#[derive(Clone, Copy, Debug, PartialEq, Eq)]
pub struct InputResult {
    pub ty: InputResultType,
    /// First character, or `None` for no character.
    pub char1: Option<char>,
    /// Second character, or `None` for no character.
    pub char2: Option<char>,
}

impl InputResult {
    pub open spec fn bypass(latin: Option<char>) -> InputResult {
        InputResult { ty: InputResultType::Bypass, char1: latin, char2: None }
    }

    pub open spec fn preedit(shown: char) -> InputResult {
        InputResult { ty: InputResultType::Preedit, char1: Some(shown), char2: None }
    }

    pub open spec fn commit(done: char) -> InputResult {
        InputResult { ty: InputResultType::Commit, char1: Some(done), char2: None }
    }

    pub open spec fn commit_bypass(done: char, latin: Option<char>) -> InputResult {
        InputResult { ty: InputResultType::CommitBypass, char1: Some(done), char2: latin }
    }

    pub open spec fn commit_preedit(done: char, shown: char) -> InputResult {
        InputResult { ty: InputResultType::CommitPreedit, char1: Some(done), char2: Some(shown) }
    }

    pub open spec fn commit_commit(done: char, symbol: char) -> InputResult {
        InputResult { ty: InputResultType::CommitCommit, char1: Some(done), char2: Some(symbol) }
    }

    /// Whether the two characters are there exactly as the tag demands.
    pub open spec fn wf(self) -> bool {
        match self.ty {
            InputResultType::Bypass => self.char2 is None,
            InputResultType::Preedit => self.char1 is Some && self.char2 is None,
            InputResultType::Commit => self.char1 is Some && self.char2 is None,
            InputResultType::CommitBypass => self.char1 is Some,
            InputResultType::CommitPreedit => self.char1 is Some && self.char2 is Some,
            InputResultType::CommitCommit => self.char1 is Some && self.char2 is Some,
        }
    }

    /// The text that the host appends to what has been committed.
    pub open spec fn committed(self) -> Seq<char> {
        match self.ty {
            InputResultType::Bypass | InputResultType::Preedit => Seq::empty(),
            InputResultType::Commit
            | InputResultType::CommitBypass
            | InputResultType::CommitPreedit => text_of(self.char1),
            InputResultType::CommitCommit => text_of(self.char1) + text_of(self.char2),
        }
    }

    /// The preedit text that the host shows after the press, given the one
    /// it showed before.
    pub open spec fn preedit_after(self, before: Option<char>) -> Option<char> {
        match self.ty {
            InputResultType::Bypass => before,
            InputResultType::Preedit => self.char1,
            InputResultType::CommitPreedit => self.char2,
            InputResultType::Commit
            | InputResultType::CommitBypass
            | InputResultType::CommitCommit => None,
        }
    }

    /// Whether the host passes the key on to the application.
    pub open spec fn passes_key(self) -> bool {
        self.ty is Bypass || self.ty is CommitBypass
    }

    /// The text to append to what has been committed.
    pub fn text_to_commit(&self) -> (text: Vec<char>)
        ensures
            text@ == self.committed(),
    {
        let mut text: Vec<char> = Vec::new();
        match self.ty {
            InputResultType::Bypass | InputResultType::Preedit => {},
            InputResultType::Commit
            | InputResultType::CommitBypass
            | InputResultType::CommitPreedit => {
                if let Some(done) = self.char1 {
                    text.push(done);
                }
            },
            InputResultType::CommitCommit => {
                if let Some(done) = self.char1 {
                    text.push(done);
                }
                if let Some(symbol) = self.char2 {
                    text.push(symbol);
                }
            },
        }
        proof {
            assert(text@ =~= self.committed());
        }
        text
    }

    /// The preedit text to show after the press, given the one that was
    /// shown before it.
    pub fn preedit_to_show(&self, before: Option<char>) -> (shown: Option<char>)
        ensures
            shown == self.preedit_after(before),
    {
        match self.ty {
            InputResultType::Bypass => before,
            InputResultType::Preedit => self.char1,
            InputResultType::CommitPreedit => self.char2,
            InputResultType::Commit
            | InputResultType::CommitBypass
            | InputResultType::CommitCommit => None,
        }
    }

    /// Whether to pass the key on to the application.
    pub fn key_to_pass(&self) -> (pass: bool)
        ensures
            pass == self.passes_key(),
    {
        match self.ty {
            InputResultType::Bypass | InputResultType::CommitBypass => true,
            _ => false,
        }
    }
}

/// The text of one character, or of none.
pub open spec fn text_of(c: Option<char>) -> Seq<char> {
    match c {
        Some(c) => seq![c],
        None => Seq::empty(),
    }
}

} // verus!
