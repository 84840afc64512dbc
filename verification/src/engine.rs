//! The input engine: one per input session.

use crate::composition::Composition;
use crate::config::{Config, ConfigView};
use crate::jamo::{letter_of_char, read_letter, Letter};
use crate::layout::KeyValue;
use crate::modifier::{
    command_held, has_command, has_shift, is_valid_modifier_state, modifier_state_valid,
    shift_held, ModifierState,
};
use crate::result::{InputResult, InputResultType};
use vstd::prelude::*;

verus! {

/// The state of an engine between two calls.
pub struct EngineState {
    /// Whether keys are read as Hangul. While this is off every key passes.
    pub hangul: bool,
    /// The letters that are pending.
    pub composition: Composition,
}

impl EngineState {
    /// The state of a new engine: Hangul is on and nothing is pending.
    pub open spec fn fresh() -> EngineState {
        EngineState { hangul: true, composition: Composition::Empty }
    }

    /// Every pending letter is a letter of the alphabet. This holds of every
    /// engine at all times.
    pub open spec fn wf(self) -> bool {
        self.composition.wf()
    }

    /// Nothing is pending.
    pub open spec fn idle(self) -> bool {
        self.composition is Empty
    }

    /// The character that the host shows as preedit text.
    pub open spec fn preedit(self) -> Option<char> {
        self.composition.shown()
    }

    /// The state with the language mode switched. What is pending stays.
    pub open spec fn toggled(self) -> EngineState {
        EngineState { hangul: !self.hangul, composition: self.composition }
    }

    /// The state with nothing pending, in the same language mode.
    pub open spec fn cleared(self) -> EngineState {
        EngineState { hangul: self.hangul, composition: Composition::Empty }
    }
}

/// What a key means as Hangul in this press. It means nothing while Hangul
/// is off, while control, super or alt is held, and where the layout gives
/// the key no Hangul legend.
pub open spec fn hangul_meaning(hangul: bool, modifiers: ModifierState, legend: Option<char>)
    -> Option<Letter> {
    if hangul && !command_held(modifiers) && legend is Some {
        Some(letter_of_char(legend.unwrap()))
    } else {
        None
    }
}

/// The transition function of the engine: the state after a press and the
/// answer to it.
///
/// A press whose modifier state holds a bit beyond the four flags is
/// ignored, and so is a press of a modifier key: nothing changes and the
/// answer is an empty `Bypass`. Any other key has a Latin and a Hangul
/// legend, each of which may be missing. Where the key means a letter, the
/// letter goes into the composition; where it means nothing, the key passes
/// and ends the composition.
pub open spec fn step(
    state: EngineState,
    config: ConfigView,
    code: u16,
    modifiers: ModifierState,
) -> (EngineState, InputResult) {
    if !modifier_state_valid(modifiers) {
        (state, InputResult::bypass(None))
    } else {
        match config.layout.value(code, shift_held(modifiers)) {
            KeyValue::Modifier => (state, InputResult::bypass(None)),
            KeyValue::Text { latin, hangul } => {
                let (composition, result) = match hangul_meaning(
                    state.hangul,
                    modifiers,
                    hangul,
                ) {
                    None => state.composition.after_pass(latin),
                    Some(Letter::Consonant(lead)) => state.composition.after_consonant(
                        config.doubling,
                        lead,
                    ),
                    Some(Letter::Vowel(vowel)) => state.composition.after_vowel(vowel),
                    Some(Letter::Symbol(symbol)) => state.composition.after_symbol(symbol),
                };
                (EngineState { hangul: state.hangul, composition }, result)
            },
        }
    }
}

/// The composition engine of one input session. It owns its state alone:
/// it cannot be copied, and every operation that changes it borrows it
/// exclusively.
#[derive(Debug)]
pub struct InputEngine {
    hangul: bool,
    composition: Composition,
}

impl View for InputEngine {
    type V = EngineState;

    closed spec fn view(&self) -> EngineState {
        EngineState { hangul: self.hangul, composition: self.composition }
    }
}

impl InputEngine {
    /// Every pending letter is a letter of the alphabet.
    #[verifier::type_invariant]
    spec fn inv(self) -> bool {
        self.composition.wf()
    }

    /// A new engine: Hangul is on and nothing is pending.
    pub fn new() -> (engine: InputEngine)
        ensures
            engine@ == EngineState::fresh(),
            engine@.wf(),
    {
        InputEngine { hangul: true, composition: Composition::Empty }
    }

    /// Switches between reading keys as Hangul and letting every key pass.
    /// What is pending stays pending: `preedit_char` still shows it, and the
    /// next key press or `reset` hands it out.
    pub fn update_hangul_state(&mut self)
        ensures
            final(self)@ == old(self)@.toggled(),
            final(self)@.wf(),
    {
        proof {
            use_type_invariant(&*self);
        }
        self.hangul = !self.hangul;
    }

    /// Takes one key press and answers it. The answer and the state after
    /// the press are those of [`step`]: they depend on nothing but the state
    /// before the press, the content of the configuration, the key and the
    /// modifiers. The answer tells the host all it needs: what to commit,
    /// what to show as preedit text, and whether to pass the key on.
    pub fn press_key(
        &mut self,
        config: &Config,
        hardware_code: u16,
        state: ModifierState,
    ) -> (result: InputResult)
        ensures
            (final(self)@, result) == step(old(self)@, config@, hardware_code, state),
            final(self)@.wf(),
            result.wf(),
            final(self)@.preedit() == result.preedit_after(old(self)@.preedit()),
    {
        proof {
            use_type_invariant(&*self);
        }
        if !is_valid_modifier_state(state) {
            return InputResult { ty: InputResultType::Bypass, char1: None, char2: None };
        }
        match config.layout().key_value(hardware_code, has_shift(state)) {
            KeyValue::Modifier => InputResult {
                ty: InputResultType::Bypass,
                char1: None,
                char2: None,
            },
            KeyValue::Text { latin, hangul } => {
                let meaning = match hangul {
                    Some(legend) => if self.hangul && !has_command(state) {
                        Some(read_letter(legend))
                    } else {
                        None
                    },
                    None => None,
                };
                let (composition, result) = match meaning {
                    None => self.composition.pass(latin),
                    Some(Letter::Consonant(lead)) => self.composition.add_consonant(
                        config.doubles_consonants(),
                        lead,
                    ),
                    Some(Letter::Vowel(vowel)) => self.composition.add_vowel(vowel),
                    Some(Letter::Symbol(symbol)) => self.composition.add_symbol(symbol),
                };
                self.composition = composition;
                result
            },
        }
    }

    /// The character that is pending, for display. `None` when nothing is pending.
    pub fn preedit_char(&self) -> (c: Option<char>)
        ensures
            c == self@.preedit(),
            self@.wf(),
    {
        proof {
            use_type_invariant(self);
        }
        self.composition.display()
    }

    /// Ends the composition and hands out the character that was pending.
    pub fn reset(&mut self) -> (c: Option<char>)
        ensures
            c == old(self)@.preedit(),
            final(self)@ == old(self)@.cleared(),
            final(self)@.preedit() is None,
            final(self)@.wf(),
    {
        proof {
            use_type_invariant(&*self);
        }
        let pending = self.composition.display();
        self.composition = Composition::Empty;
        pending
    }
}

} // verus!
