//! What holds of the engine whatever is typed.

use crate::composition::Composition;
use crate::config::{Config, ConfigView};
use crate::engine::{hangul_meaning, step, EngineState};
use crate::jamo::{
    double_lead, is_vowel_char, join_tails, join_vowels, lead_jamo, lead_of_char, lead_valid,
    letter_of_char, split_tail, tail_of_lead, tail_valid, vowel_jamo, vowel_valid, Letter,
};
use crate::layout::{dubeolsik_hangul, is_modifier_code, KeyValue};
use crate::letters::{
    char_letters, lead_letters, lemma_shown_letters, tail_letters, text_letters, typed_letters,
    vowel_letters,
};
use crate::modifier::{modifier_state_valid, shift_held, ModifierState};
use crate::result::{InputResult, InputResultType};
use crate::syllable::{lemma_syllable_in_block, syllable, SYLLABLE_BASE, SYLLABLE_LAST};
use vstd::prelude::*;

verus! {

/// The state after a sequence of presses and the answers to them, in order.
pub open spec fn replay(
    state: EngineState,
    config: ConfigView,
    keys: Seq<(u16, ModifierState)>,
) -> (EngineState, Seq<InputResult>)
    decreases keys.len(),
{
    if keys.len() == 0 {
        (state, Seq::empty())
    } else {
        let (before, answers) = replay(state, config, keys.drop_last());
        let (after, answer) = step(before, config, keys.last().0, keys.last().1);
        (after, answers.push(answer))
    }
}

/// What the key means in this press: a letter, or nothing. A modifier key
/// means nothing, and so does any key in a press that the engine ignores.
pub open spec fn press_meaning(
    state: EngineState,
    config: ConfigView,
    code: u16,
    modifiers: ModifierState,
) -> Option<Letter> {
    if !modifier_state_valid(modifiers) {
        None
    } else {
        match config.layout.value(code, shift_held(modifiers)) {
            KeyValue::Modifier => None,
            KeyValue::Text { latin, hangul } => hangul_meaning(state.hangul, modifiers, hangul),
        }
    }
}

/// The key is a text key to which the layout gives no Hangul legend, with
/// shift or without.
pub open spec fn key_without_hangul(config: ConfigView, code: u16) -> bool {
    forall|shift: bool|
        match #[trigger] config.layout.value(code, shift) {
            KeyValue::Modifier => false,
            KeyValue::Text { latin, hangul } => hangul is None,
        }
}

/// Replaying the same presses on two new engines whose configurations have
/// the same content gives the same answers and the same final state. Each
/// press of `press_key` is one `step`, so this holds of the engines
/// themselves.
pub proof fn lemma_replay_is_determined(
    first: Config,
    second: Config,
    keys: Seq<(u16, ModifierState)>,
)
    requires
        first@ == second@,
    ensures
        replay(EngineState::fresh(), first@, keys) == replay(EngineState::fresh(), second@, keys),
{
}

/// A replay answers every press, and every answer and every state on the
/// way is well formed.
pub proof fn lemma_replay_answers_each_press(
    state: EngineState,
    config: ConfigView,
    keys: Seq<(u16, ModifierState)>,
)
    requires
        state.wf(),
    ensures
        replay(state, config, keys).1.len() == keys.len(),
        replay(state, config, keys).0.wf(),
        forall|i: int|
            0 <= i < keys.len() ==> (#[trigger] replay(state, config, keys).1[i]).wf(),
    decreases keys.len(),
{
    if keys.len() > 0 {
        lemma_replay_answers_each_press(state, config, keys.drop_last());
        let before = replay(state, config, keys.drop_last()).0;
        lemma_step_keeps_form(before, config, keys.last().0, keys.last().1);
    }
}

/// A press leaves the state well formed and its answer holds the characters
/// that its tag demands.
pub proof fn lemma_step_keeps_form(
    state: EngineState,
    config: ConfigView,
    code: u16,
    modifiers: ModifierState,
)
    requires
        state.wf(),
    ensures
        step(state, config, code, modifiers).0.wf(),
        step(state, config, code, modifiers).1.wf(),
        step(state, config, code, modifiers).0.hangul == state.hangul,
{
}

/// A character that the engine composes: a syllable block or a letter
/// standing alone.
pub open spec fn is_composed(c: char) -> bool {
    SYLLABLE_BASE <= (c as u32) <= SYLLABLE_LAST || lead_of_char(c) is Some || is_vowel_char(c)
}

/// The engine makes up no character: each character of an answer is a
/// legend of the key that was pressed, or a syllable block or a letter that
/// the engine composed. What is pending is always shown by one of the latter.
pub proof fn lemma_answer_holds_legends_or_hangul(
    state: EngineState,
    config: ConfigView,
    code: u16,
    modifiers: ModifierState,
)
    requires
        state.wf(),
    ensures
        ({
            let answer = step(state, config, code, modifiers).1;
            let value = config.layout.value(code, shift_held(modifiers));
            &&& answer.char1 matches Some(c) ==> is_composed(c) || (value matches KeyValue::Text {
                latin,
                hangul,
            } && (latin == Some(c) || hangul == Some(c)))
            &&& answer.char2 matches Some(c) ==> is_composed(c) || (value matches KeyValue::Text {
                latin,
                hangul,
            } && (latin == Some(c) || hangul == Some(c)))
        }),
        state.preedit() matches Some(c) ==> is_composed(c),
{
    lemma_shown_is_composed(state.composition);
    lemma_step_keeps_form(state, config, code, modifiers);
    lemma_shown_is_composed(step(state, config, code, modifiers).0.composition);
    match state.composition {
        Composition::Syllable(lead, vowel, tail) => {
            if tail != 0 {
                lemma_divided_letters(tail);
                lemma_shown_is_composed(Composition::Syllable(lead, vowel, split_tail(tail).0));
            }
        },
        _ => {},
    }
}

/// What shows a composition is a syllable block or a letter standing alone.
pub proof fn lemma_shown_is_composed(composition: Composition)
    requires
        composition.wf(),
    ensures
        composition.shown() matches Some(c) ==> is_composed(c),
{
    match composition {
        Composition::Syllable(lead, vowel, tail) => {
            lemma_syllable_in_block(lead, vowel, tail);
        },
        _ => {},
    }
}

/// The answer alone tells the host what to show: the preedit text after a
/// press is what the answer says, given the preedit text before it.
pub proof fn lemma_answer_tells_preedit(
    state: EngineState,
    config: ConfigView,
    code: u16,
    modifiers: ModifierState,
)
    requires
        state.wf(),
    ensures
        step(state, config, code, modifiers).0.preedit() == step(
            state,
            config,
            code,
            modifiers,
        ).1.preedit_after(state.preedit()),
{
}

/// A press that is answered with `Bypass` has changed nothing.
pub proof fn lemma_bypass_changes_nothing(
    state: EngineState,
    config: ConfigView,
    code: u16,
    modifiers: ModifierState,
)
    requires
        state.wf(),
        step(state, config, code, modifiers).1.ty is Bypass,
    ensures
        step(state, config, code, modifiers).0 == state,
{
}

/// While nothing is pending, a key that means nothing as Hangul is answered
/// with `Bypass` and leaves the engine as it was: nothing is pending after it.
pub proof fn lemma_meaningless_key_keeps_idle(
    state: EngineState,
    config: ConfigView,
    code: u16,
    modifiers: ModifierState,
)
    requires
        state.idle(),
        press_meaning(state, config, code, modifiers) is None,
    ensures
        step(state, config, code, modifiers).0 == state,
        step(state, config, code, modifiers).0.preedit() is None,
        step(state, config, code, modifiers).1.ty is Bypass,
{
}

/// A key without a Hangul legend never goes into a composition, whatever
/// the modifiers: the answer passes the key on, and two presses of it in
/// the same state get an answer with the same tag and lead to the same state,
/// in which nothing is pending. The tag is `Bypass` while nothing is
/// pending, and `CommitBypass` where the press ends a composition.
pub proof fn lemma_modifiers_never_compose(
    state: EngineState,
    config: ConfigView,
    code: u16,
    first: ModifierState,
    second: ModifierState,
)
    requires
        key_without_hangul(config, code),
        modifier_state_valid(first),
        modifier_state_valid(second),
    ensures
        step(state, config, code, first).1.passes_key(),
        step(state, config, code, first).1.ty == step(state, config, code, second).1.ty,
        step(state, config, code, first).0 == step(state, config, code, second).0,
        step(state, config, code, first).0 == state.cleared(),
        state.preedit() is None <==> step(state, config, code, first).1.ty is Bypass,
        state.preedit() is Some <==> step(state, config, code, first).1.ty is CommitBypass,
{
    assert(config.layout.value(code, shift_held(first)) is Text);
    assert(config.layout.value(code, shift_held(second)) is Text);
}

/// A press of a modifier key alone changes nothing, also while a
/// composition is pending, and is answered with `Bypass`.
pub proof fn lemma_modifier_key_changes_nothing(
    state: EngineState,
    config: ConfigView,
    code: u16,
    modifiers: ModifierState,
)
    requires
        config.layout.value(code, shift_held(modifiers)) is Modifier,
    ensures
        step(state, config, code, modifiers) == (state, InputResult::bypass(None)),
{
}

/// The state that `reset` leaves shows no preedit text and keeps the
/// language mode.
pub proof fn lemma_cleared_is_idle(state: EngineState)
    ensures
        state.cleared().preedit() is None,
        state.cleared().idle(),
        state.cleared().hangul == state.hangul,
{
}

/// Switching the language mode twice gives the state back, and switching it
/// once never touches what is pending.
pub proof fn lemma_toggle_keeps_pending(state: EngineState)
    ensures
        state.toggled().toggled() == state,
        state.toggled().preedit() == state.preedit(),
{
}

/// The built-in layout gives a Hangul legend to the twenty-six letter keys
/// and to no other key, and every such legend is a consonant or a vowel:
/// with the built-in layout the engine commits no symbol of its own.
pub proof fn lemma_dubeolsik_types_letters(code: u16, shift: bool)
    ensures
        dubeolsik_hangul(code, shift) is Some <==> 24 <= code <= 33 || 38 <= code <= 46 || 52
            <= code <= 58,
        dubeolsik_hangul(code, shift) matches Some(legend) ==> !(letter_of_char(legend)
            is Symbol),
        dubeolsik_hangul(code, shift) is Some ==> !is_modifier_code(code),
{
    reveal_strlit("\u{3142}\u{3148}\u{3137}\u{3131}\u{3145}\u{315B}\u{3155}\u{3151}\u{3150}\u{3154}");
    reveal_strlit("\u{3143}\u{3149}\u{3138}\u{3132}\u{3146}\u{315B}\u{3155}\u{3151}\u{3152}\u{3156}");
    reveal_strlit("\u{3141}\u{3134}\u{3147}\u{3139}\u{314E}\u{3157}\u{3153}\u{314F}\u{3163}");
    reveal_strlit("\u{314B}\u{314C}\u{314A}\u{314D}\u{3160}\u{315C}\u{3161}");
}

/// Every leading consonant is read back from the letter that shows it.
pub proof fn lemma_lead_letter_reads_back(lead: u8)
    requires
        lead_valid(lead),
    ensures
        lead_of_char(lead_jamo(lead)) == Some(lead),
        letter_of_char(lead_jamo(lead)) == Letter::Consonant(lead),
{
}

/// Dividing a trailing consonant undoes what made it: a single consonant
/// goes whole, and a cluster gives back the consonant that was typed last.
pub proof fn lemma_divide_undoes_join(tail: u8, lead: u8)
    requires
        lead_valid(lead),
    ensures
        tail_of_lead(lead) matches Some(single) ==> tail_valid(single) && split_tail(single) == (
            0u8,
            lead,
        ),
        tail_valid(tail) ==> (join_tails(tail, lead) matches Some(cluster) ==> tail_valid(cluster)
            && split_tail(cluster) == (tail, lead)),
{
}

/// A consonant that closed a syllable opens the next one when a vowel
/// follows: the two presses leave the old syllable committed as it was
/// before the consonant, and the consonant pending with the vowel.
pub proof fn lemma_trailing_consonant_moves_on(
    lead: u8,
    vowel: u8,
    tail: u8,
    doubling: bool,
    consonant: u8,
    next_vowel: u8,
)
    requires
        Composition::Syllable(lead, vowel, tail).wf(),
        lead_valid(consonant),
        vowel_valid(next_vowel),
        Composition::Syllable(lead, vowel, tail).after_consonant(doubling, consonant).1.ty
            is Preedit,
    ensures
        ({
            let closed = Composition::Syllable(lead, vowel, tail).after_consonant(
                doubling,
                consonant,
            ).0;
            closed.after_vowel(next_vowel) == (
                Composition::Syllable(consonant, next_vowel, 0),
                InputResult::commit_preedit(
                    syllable(lead, vowel, tail),
                    syllable(consonant, next_vowel, 0),
                ),
            )
        }),
{
    lemma_divide_undoes_join(tail, consonant);
}

/// The text that a sequence of answers commits, in order.
pub open spec fn committed_text(answers: Seq<InputResult>) -> Seq<char>
    decreases answers.len(),
{
    if answers.len() == 0 {
        Seq::empty()
    } else {
        committed_text(answers.drop_last()) + answers.last().committed()
    }
}

/// The plain letters that a sequence of presses types, in order.
pub open spec fn replay_typed(
    state: EngineState,
    config: ConfigView,
    keys: Seq<(u16, ModifierState)>,
) -> Seq<Letter>
    decreases keys.len(),
{
    if keys.len() == 0 {
        Seq::empty()
    } else {
        let before = replay(state, config, keys.drop_last()).0;
        replay_typed(state, config, keys.drop_last()) + typed_letters(
            press_meaning(before, config, keys.last().0, keys.last().1),
        )
    }
}

/// The letters of a text are those of its front followed by those of its rest.
pub proof fn lemma_text_letters_of_parts(front: Seq<char>, rest: Seq<char>)
    ensures
        text_letters(front + rest) == text_letters(front) + text_letters(rest),
    decreases rest.len(),
{
    if rest.len() == 0 {
        assert(front + rest =~= front);
        assert(text_letters(front) + text_letters(rest) =~= text_letters(front));
    } else {
        lemma_text_letters_of_parts(front, rest.drop_last());
        assert((front + rest).drop_last() =~= front + rest.drop_last());
        assert((front + rest).last() == rest.last());
        assert(text_letters(front) + (text_letters(rest.drop_last()) + char_letters(rest.last()))
            =~= (text_letters(front) + text_letters(rest.drop_last())) + char_letters(
            rest.last(),
        ));
    }
}

/// The letters of what an answer commits.
proof fn lemma_committed_letters(answer: InputResult)
    requires
        answer.wf(),
    ensures
        text_letters(answer.committed()) == match answer.ty {
            InputResultType::Bypass | InputResultType::Preedit => Seq::<Letter>::empty(),
            InputResultType::Commit
            | InputResultType::CommitBypass
            | InputResultType::CommitPreedit => char_letters(answer.char1.unwrap()),
            InputResultType::CommitCommit => char_letters(answer.char1.unwrap()) + char_letters(
                answer.char2.unwrap(),
            ),
        },
{
    reveal_with_fuel(text_letters, 3);
    let text = answer.committed();
    if text.len() == 1 {
        assert(text.drop_last() =~= Seq::<char>::empty());
        assert(text_letters(text) =~= char_letters(text[0]));
    } else if text.len() == 2 {
        assert(text.drop_last() =~= seq![text[0]]);
        assert(text.drop_last().drop_last() =~= Seq::<char>::empty());
        assert(text_letters(text.drop_last()) =~= char_letters(text[0]));
    }
}

/// The letters of an answer that shows `shown` and commits nothing.
proof fn lemma_preedit_letters(shown: char)
    ensures
        text_letters(InputResult::preedit(shown).committed()) == Seq::<Letter>::empty(),
{
    lemma_committed_letters(InputResult::preedit(shown));
}

/// The letters of an answer that commits `done` and shows `shown`.
proof fn lemma_commit_preedit_letters(done: char, shown: char)
    ensures
        text_letters(InputResult::commit_preedit(done, shown).committed()) == char_letters(done),
{
    lemma_committed_letters(InputResult::commit_preedit(done, shown));
}

/// A trailing consonant is made of the letters of the part that stays and
/// of the consonant that moves on.
pub proof fn lemma_divided_letters(tail: u8)
    requires
        tail_valid(tail),
    ensures
        split_tail(tail).0 < 28,
        lead_valid(split_tail(tail).1),
        tail_letters(tail) == tail_letters(split_tail(tail).0) + lead_letters(split_tail(tail).1),
{
    assert(tail_letters(tail) =~= tail_letters(split_tail(tail).0) + lead_letters(
        split_tail(tail).1,
    ));
}

/// A consonant that closes a syllable or joins its trailing consonant adds
/// its own letters to those of the trailing consonant.
pub proof fn lemma_closed_letters(tail: u8, lead: u8)
    requires
        tail < 28,
        lead_valid(lead),
    ensures
        tail == 0 ==> (tail_of_lead(lead) matches Some(closed) ==> tail_valid(closed)
            && tail_letters(closed) == lead_letters(lead)),
        tail != 0 ==> (join_tails(tail, lead) matches Some(closed) ==> tail_valid(closed)
            && tail_letters(closed) == tail_letters(tail) + lead_letters(lead)),
{
    if tail == 0 {
        if let Some(closed) = tail_of_lead(lead) {
            assert(tail_letters(closed) =~= lead_letters(lead));
        }
    } else {
        if let Some(closed) = join_tails(tail, lead) {
            assert(tail_letters(closed) =~= tail_letters(tail) + lead_letters(lead));
        }
    }
}

/// A compound vowel is made of the letters of its two vowels, and a doubled
/// consonant of its plain consonant twice.
pub proof fn lemma_joined_letters(first: u8, second: u8)
    ensures
        vowel_valid(first) && vowel_valid(second) ==> (join_vowels(first, second) matches Some(
            joined,
        ) ==> vowel_valid(joined) && vowel_letters(joined) == vowel_letters(first)
            + vowel_letters(second)),
        lead_valid(first) && lead_valid(second) ==> (double_lead(first, second) matches Some(
            doubled,
        ) ==> lead_valid(doubled) && lead_letters(doubled) == lead_letters(first) + lead_letters(
            second,
        )),
{
    if let Some(joined) = join_vowels(first, second) {
        assert(vowel_letters(joined) =~= vowel_letters(first) + vowel_letters(second));
    }
    if let Some(doubled) = double_lead(first, second) {
        assert(lead_letters(doubled) =~= lead_letters(first) + lead_letters(second));
    }
}

/// A consonant that goes into a composition keeps every letter: what is
/// committed and what is pending afterwards are the letters that were
/// pending, followed by those of the consonant.
pub proof fn lemma_consonant_keeps_letters(composition: Composition, doubling: bool, lead: u8)
    requires
        composition.wf(),
        lead_valid(lead),
    ensures
        ({
            let (next, answer) = composition.after_consonant(doubling, lead);
            text_letters(answer.committed()) + next.letters() == composition.letters()
                + lead_letters(lead)
        }),
{
    let (next, answer) = composition.after_consonant(doubling, lead);
    let before = composition.letters();
    let typed = lead_letters(lead);
    let done = text_letters(answer.committed());
    lemma_shown_letters(composition);
    match composition {
        Composition::Empty => {
            lemma_preedit_letters(lead_jamo(lead));
        },
        Composition::Lead(first) => {
            lemma_joined_letters(first, lead);
            lemma_preedit_letters(lead_jamo(double_lead(first, lead).unwrap()));
            lemma_commit_preedit_letters(lead_jamo(first), lead_jamo(lead));
        },
        Composition::Vowel(vowel) => {
            lemma_commit_preedit_letters(vowel_jamo(vowel), lead_jamo(lead));
        },
        Composition::Syllable(first, vowel, tail) => {
            lemma_closed_letters(tail, lead);
            lemma_commit_preedit_letters(syllable(first, vowel, tail), lead_jamo(lead));
            if answer.ty is Preedit {
                let closed = next->Syllable_2;
                lemma_preedit_letters(syllable(first, vowel, closed));
                assert(next.letters() =~= lead_letters(first) + vowel_letters(vowel)
                    + tail_letters(tail) + typed);
            }
        },
    }
    assert(done + next.letters() =~= before + typed);
}

/// A vowel that goes into a composition keeps every letter.
pub proof fn lemma_vowel_keeps_letters(composition: Composition, vowel: u8)
    requires
        composition.wf(),
        vowel_valid(vowel),
    ensures
        ({
            let (next, answer) = composition.after_vowel(vowel);
            text_letters(answer.committed()) + next.letters() == composition.letters()
                + vowel_letters(vowel)
        }),
{
    let (next, answer) = composition.after_vowel(vowel);
    let before = composition.letters();
    let typed = vowel_letters(vowel);
    let done = text_letters(answer.committed());
    match composition {
        Composition::Empty => {
            lemma_preedit_letters(vowel_jamo(vowel));
        },
        Composition::Lead(lead) => {
            lemma_preedit_letters(syllable(lead, vowel, 0));
            assert(next.letters() =~= before + typed);
        },
        Composition::Vowel(first) => {
            lemma_joined_letters(first, vowel);
            lemma_shown_letters(composition);
            lemma_preedit_letters(vowel_jamo(join_vowels(first, vowel).unwrap()));
            lemma_commit_preedit_letters(vowel_jamo(first), vowel_jamo(vowel));
        },
        Composition::Syllable(lead, first, tail) => {
            if tail == 0 {
                lemma_joined_letters(first, vowel);
                lemma_shown_letters(composition);
                lemma_preedit_letters(syllable(lead, join_vowels(first, vowel).unwrap(), 0));
                lemma_commit_preedit_letters(syllable(lead, first, 0), vowel_jamo(vowel));
                if answer.ty is Preedit {
                    assert(next.letters() =~= before + typed);
                }
            } else {
                let (stays, moved) = split_tail(tail);
                lemma_divided_letters(tail);
                lemma_shown_letters(Composition::Syllable(lead, first, stays));
                lemma_commit_preedit_letters(
                    syllable(lead, first, stays),
                    syllable(moved, vowel, 0),
                );
                assert(done == lead_letters(lead) + vowel_letters(first) + tail_letters(stays));
                assert(next.letters() =~= lead_letters(moved) + typed);
                assert(before =~= lead_letters(lead) + vowel_letters(first) + tail_letters(stays)
                    + lead_letters(moved));
            }
        },
    }
    assert(done + next.letters() =~= before + typed);
}

/// No letter is lost and none is made up. Broken into plain letters, what a
/// press commits and what is pending after it are what was pending before
/// it, followed by what the press typed.
pub proof fn lemma_press_keeps_letters(
    state: EngineState,
    config: ConfigView,
    code: u16,
    modifiers: ModifierState,
)
    requires
        state.wf(),
    ensures
        ({
            let (next, answer) = step(state, config, code, modifiers);
            text_letters(answer.committed()) + next.composition.letters()
                == state.composition.letters() + typed_letters(
                press_meaning(state, config, code, modifiers),
            )
        }),
{
    let (next, answer) = step(state, config, code, modifiers);
    let meaning = press_meaning(state, config, code, modifiers);
    lemma_step_keeps_form(state, config, code, modifiers);
    lemma_committed_letters(answer);
    lemma_shown_letters(state.composition);
    match meaning {
        Some(Letter::Consonant(lead)) => {
            lemma_consonant_keeps_letters(state.composition, config.doubling, lead);
        },
        Some(Letter::Vowel(vowel)) => {
            lemma_vowel_keeps_letters(state.composition, vowel);
        },
        _ => {},
    }
    assert(text_letters(answer.committed()) + next.composition.letters()
        =~= state.composition.letters() + typed_letters(meaning));
}

/// One more press in the reckoning of letters: if the letters balance
/// before it and over it, they balance after it.
proof fn lemma_balance_goes_on(
    committed: Seq<Letter>,
    pending: Seq<Letter>,
    started: Seq<Letter>,
    typed: Seq<Letter>,
    committed_now: Seq<Letter>,
    pending_now: Seq<Letter>,
    typed_now: Seq<Letter>,
)
    requires
        committed + pending == started + typed,
        committed_now + pending_now == pending + typed_now,
    ensures
        (committed + committed_now) + pending_now == started + (typed + typed_now),
{
    assert((committed + committed_now) + pending_now =~= committed + (committed_now
        + pending_now));
    assert(committed + (pending + typed_now) =~= (committed + pending) + typed_now);
    assert((started + typed) + typed_now =~= started + (typed + typed_now));
}

/// Over any sequence of presses no letter is lost and none is made up: the
/// letters of all that was committed, followed by those that are pending at
/// the end, are those that were pending at the start, followed by those
/// that were typed.
pub proof fn lemma_replay_keeps_letters(
    state: EngineState,
    config: ConfigView,
    keys: Seq<(u16, ModifierState)>,
)
    requires
        state.wf(),
    ensures
        text_letters(committed_text(replay(state, config, keys).1)) + replay(
            state,
            config,
            keys,
        ).0.composition.letters() == state.composition.letters() + replay_typed(
            state,
            config,
            keys,
        ),
    decreases keys.len(),
{
    let started = state.composition.letters();
    if keys.len() == 0 {
        assert(replay(state, config, keys) == (state, Seq::<InputResult>::empty()));
        assert(committed_text(Seq::<InputResult>::empty()) == Seq::<char>::empty());
        assert(text_letters(Seq::<char>::empty()) == Seq::<Letter>::empty());
        assert(replay_typed(state, config, keys) == Seq::<Letter>::empty());
        assert(Seq::<Letter>::empty() + started =~= started + Seq::<Letter>::empty());
    } else {
        let earlier = keys.drop_last();
        let code = keys.last().0;
        let modifiers = keys.last().1;
        let before = replay(state, config, earlier).0;
        let answers = replay(state, config, earlier).1;
        let after = step(before, config, code, modifiers).0;
        let answer = step(before, config, code, modifiers).1;
        let typed_now = typed_letters(press_meaning(before, config, code, modifiers));
        assert(replay(state, config, keys) == (after, answers.push(answer)));
        assert(replay_typed(state, config, keys) == replay_typed(state, config, earlier)
            + typed_now);
        lemma_replay_keeps_letters(state, config, earlier);
        lemma_replay_answers_each_press(state, config, earlier);
        lemma_press_keeps_letters(before, config, code, modifiers);
        assert(committed_text(answers.push(answer)) == committed_text(answers)
            + answer.committed()) by {
            assert(answers.push(answer).drop_last() =~= answers);
            assert(answers.push(answer).last() == answer);
        }
        lemma_text_letters_of_parts(committed_text(answers), answer.committed());
        lemma_balance_goes_on(
            text_letters(committed_text(answers)),
            before.composition.letters(),
            started,
            replay_typed(state, config, earlier),
            text_letters(answer.committed()),
            after.composition.letters(),
            typed_now,
        );
    }
}

} // verus!
