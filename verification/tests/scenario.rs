use kime_engine::{
    Config, InputEngine, InputResult, InputResultType, MODIFIER_ALT, MODIFIER_CONTROL,
    MODIFIER_SHIFT, MODIFIER_SUPER,
};

const KEY_1: u16 = 10;
const KEY_Q: u16 = 24;
const KEY_E: u16 = 26;
const KEY_R: u16 = 27;
const KEY_T: u16 = 28;
const KEY_S: u16 = 39;
const KEY_D: u16 = 40;
const KEY_F: u16 = 41;
const KEY_G: u16 = 42;
const KEY_H: u16 = 43;
const KEY_K: u16 = 45;
const KEY_L: u16 = 46;
const KEY_SHIFT_LEFT: u16 = 50;
const KEY_M: u16 = 58;
const KEY_UNKNOWN: u16 = 200;

fn bypass(latin: Option<char>) -> InputResult {
    InputResult { ty: InputResultType::Bypass, char1: latin, char2: None }
}

fn preedit(shown: char) -> InputResult {
    InputResult { ty: InputResultType::Preedit, char1: Some(shown), char2: None }
}

fn commit_bypass(done: char, latin: Option<char>) -> InputResult {
    InputResult { ty: InputResultType::CommitBypass, char1: Some(done), char2: latin }
}

fn commit_preedit(done: char, shown: char) -> InputResult {
    InputResult { ty: InputResultType::CommitPreedit, char1: Some(done), char2: Some(shown) }
}

fn type_keys(engine: &mut InputEngine, config: &Config, keys: &[u16]) -> Vec<InputResult> {
    let mut answers = Vec::new();
    for key in keys {
        answers.push(engine.press_key(config, *key, 0));
    }
    answers
}

#[test]
fn giyeok_then_o_composes_go() {
    let config = Config::new();
    let mut engine = InputEngine::new();
    assert_eq!(engine.press_key(&config, KEY_R, 0), preedit('ㄱ'));
    assert_eq!(engine.press_key(&config, KEY_H, 0), preedit('고'));
    assert_eq!(engine.preedit_char(), Some('고'));
    assert_eq!(engine.reset(), Some('고'));
    assert_eq!(engine.preedit_char(), None);
}

#[test]
fn go_is_the_code_point_ace0() {
    let config = Config::new();
    let mut engine = InputEngine::new();
    type_keys(&mut engine, &config, &[KEY_R, KEY_H]);
    assert_eq!(engine.preedit_char().map(|c| c as u32), Some(0xACE0));
}

#[test]
fn types_the_word_hangeul() {
    let config = Config::new();
    let mut engine = InputEngine::new();
    let answers = type_keys(&mut engine, &config, &[KEY_G, KEY_K, KEY_S, KEY_R, KEY_M, KEY_F]);
    assert_eq!(
        answers,
        vec![
            preedit('ㅎ'),
            preedit('하'),
            preedit('한'),
            commit_preedit('한', 'ㄱ'),
            preedit('그'),
            preedit('글'),
        ]
    );
    assert_eq!(engine.reset(), Some('글'));
}

#[test]
fn vowel_takes_the_trailing_consonant() {
    let config = Config::new();
    let mut engine = InputEngine::new();
    let answers = type_keys(&mut engine, &config, &[KEY_R, KEY_K, KEY_S, KEY_K]);
    assert_eq!(
        answers,
        vec![preedit('ㄱ'), preedit('가'), preedit('간'), commit_preedit('가', '나')]
    );
    assert_eq!(engine.preedit_char(), Some('나'));
}

#[test]
fn cluster_gives_its_last_consonant_to_a_vowel() {
    let config = Config::new();
    let mut engine = InputEngine::new();
    let answers = type_keys(&mut engine, &config, &[KEY_E, KEY_K, KEY_F, KEY_R, KEY_K]);
    assert_eq!(
        answers,
        vec![
            preedit('ㄷ'),
            preedit('다'),
            preedit('달'),
            preedit('닭'),
            commit_preedit('달', '가'),
        ]
    );
}

#[test]
fn consonant_that_makes_no_cluster_starts_anew() {
    let config = Config::new();
    let mut engine = InputEngine::new();
    let answers = type_keys(&mut engine, &config, &[KEY_E, KEY_K, KEY_F, KEY_R, KEY_R]);
    assert_eq!(answers[4], commit_preedit('닭', 'ㄱ'));
    assert_eq!(engine.preedit_char(), Some('ㄱ'));
}

#[test]
fn two_vowels_make_a_compound() {
    let config = Config::new();
    let mut engine = InputEngine::new();
    let answers = type_keys(&mut engine, &config, &[KEY_R, KEY_H, KEY_K]);
    assert_eq!(answers, vec![preedit('ㄱ'), preedit('고'), preedit('과')]);
    engine.reset();
    let answers = type_keys(&mut engine, &config, &[KEY_D, KEY_M, KEY_L]);
    assert_eq!(answers, vec![preedit('ㅇ'), preedit('으'), preedit('의')]);
}

#[test]
fn lone_vowels_join_too() {
    let config = Config::new();
    let mut engine = InputEngine::new();
    let answers = type_keys(&mut engine, &config, &[KEY_H, KEY_L]);
    assert_eq!(answers, vec![preedit('ㅗ'), preedit('ㅚ')]);
}

#[test]
fn vowels_that_do_not_join_are_split() {
    let config = Config::new();
    let mut engine = InputEngine::new();
    let answers = type_keys(&mut engine, &config, &[KEY_K, KEY_K]);
    assert_eq!(answers, vec![preedit('ㅏ'), commit_preedit('ㅏ', 'ㅏ')]);
    engine.reset();
    let answers = type_keys(&mut engine, &config, &[KEY_R, KEY_K, KEY_H]);
    assert_eq!(answers[2], commit_preedit('가', 'ㅗ'));
}

#[test]
fn consonant_after_a_lone_vowel_starts_anew() {
    let config = Config::new();
    let mut engine = InputEngine::new();
    let answers = type_keys(&mut engine, &config, &[KEY_K, KEY_R]);
    assert_eq!(answers, vec![preedit('ㅏ'), commit_preedit('ㅏ', 'ㄱ')]);
}

#[test]
fn shift_gives_the_doubled_consonant() {
    let config = Config::new();
    let mut engine = InputEngine::new();
    assert_eq!(engine.press_key(&config, KEY_R, MODIFIER_SHIFT), preedit('ㄲ'));
    assert_eq!(engine.press_key(&config, KEY_K, 0), preedit('까'));
}

#[test]
fn doubled_consonant_closes_a_syllable() {
    let config = Config::new();
    let mut engine = InputEngine::new();
    type_keys(&mut engine, &config, &[KEY_D, KEY_L]);
    assert_eq!(engine.press_key(&config, KEY_T, MODIFIER_SHIFT), preedit('있'));
    assert_eq!(engine.press_key(&config, KEY_K, 0), commit_preedit('이', '싸'));
}

#[test]
fn doubled_consonant_without_trailing_form_starts_anew() {
    let config = Config::new();
    let mut engine = InputEngine::new();
    type_keys(&mut engine, &config, &[KEY_R, KEY_K]);
    assert_eq!(engine.press_key(&config, KEY_E, MODIFIER_SHIFT), commit_preedit('가', 'ㄸ'));
}

#[test]
fn shift_key_alone_keeps_the_composition() {
    let config = Config::new();
    let mut engine = InputEngine::new();
    type_keys(&mut engine, &config, &[KEY_D, KEY_L]);
    assert_eq!(engine.press_key(&config, KEY_SHIFT_LEFT, MODIFIER_SHIFT), bypass(None));
    assert_eq!(engine.press_key(&config, KEY_SHIFT_LEFT, 0), bypass(None));
    assert_eq!(engine.preedit_char(), Some('이'));
    assert_eq!(engine.press_key(&config, KEY_T, MODIFIER_SHIFT), preedit('있'));
}

#[test]
fn key_without_hangul_passes_while_idle() {
    let config = Config::new();
    let mut engine = InputEngine::new();
    assert_eq!(engine.press_key(&config, KEY_1, 0), bypass(Some('1')));
    assert_eq!(engine.press_key(&config, KEY_1, MODIFIER_SHIFT), bypass(Some('!')));
    assert_eq!(engine.press_key(&config, KEY_UNKNOWN, 0), bypass(None));
    assert_eq!(engine.preedit_char(), None);
}

#[test]
fn key_without_hangul_ends_the_composition() {
    let config = Config::new();
    let mut engine = InputEngine::new();
    type_keys(&mut engine, &config, &[KEY_R, KEY_K]);
    assert_eq!(engine.press_key(&config, KEY_1, 0), commit_bypass('가', Some('1')));
    assert_eq!(engine.preedit_char(), None);
    type_keys(&mut engine, &config, &[KEY_R]);
    assert_eq!(engine.press_key(&config, KEY_UNKNOWN, 0), commit_bypass('ㄱ', None));
}

#[test]
fn command_modifiers_take_the_hangul_meaning_away() {
    let config = Config::new();
    for modifier in [MODIFIER_CONTROL, MODIFIER_SUPER, MODIFIER_ALT] {
        let mut engine = InputEngine::new();
        assert_eq!(engine.press_key(&config, KEY_R, modifier), bypass(Some('r')));
        type_keys(&mut engine, &config, &[KEY_R, KEY_K]);
        assert_eq!(
            engine.press_key(&config, KEY_R, modifier | MODIFIER_SHIFT),
            commit_bypass('가', Some('R'))
        );
        assert_eq!(engine.preedit_char(), None);
    }
}

#[test]
fn foreign_modifier_bits_make_the_press_ignored() {
    let config = Config::new();
    let mut engine = InputEngine::new();
    assert_eq!(engine.press_key(&config, KEY_R, 16), bypass(None));
    assert_eq!(engine.preedit_char(), None);
    type_keys(&mut engine, &config, &[KEY_R]);
    assert_eq!(engine.press_key(&config, KEY_K, 0x8000_0000), bypass(None));
    assert_eq!(engine.press_key(&config, KEY_1, 20), bypass(None));
    assert_eq!(engine.preedit_char(), Some('ㄱ'));
    assert_eq!(
        engine.press_key(&config, KEY_K, 15 - MODIFIER_SHIFT),
        commit_bypass('ㄱ', Some('k'))
    );
}

#[test]
fn latin_mode_lets_every_key_pass() {
    let config = Config::new();
    let mut engine = InputEngine::new();
    engine.update_hangul_state();
    assert_eq!(engine.press_key(&config, KEY_R, 0), bypass(Some('r')));
    assert_eq!(engine.press_key(&config, KEY_Q, MODIFIER_SHIFT), bypass(Some('Q')));
    assert_eq!(engine.preedit_char(), None);
    engine.update_hangul_state();
    assert_eq!(engine.press_key(&config, KEY_R, 0), preedit('ㄱ'));
}

#[test]
fn mode_switch_keeps_what_is_pending() {
    let config = Config::new();
    let mut engine = InputEngine::new();
    type_keys(&mut engine, &config, &[KEY_R, KEY_K]);
    engine.update_hangul_state();
    assert_eq!(engine.preedit_char(), Some('가'));
    assert_eq!(engine.press_key(&config, KEY_S, 0), commit_bypass('가', Some('s')));
    assert_eq!(engine.preedit_char(), None);

    let mut other = InputEngine::new();
    type_keys(&mut other, &config, &[KEY_R, KEY_K]);
    other.update_hangul_state();
    assert_eq!(other.reset(), Some('가'));
}

#[test]
fn reset_while_idle_returns_nothing() {
    let mut engine = InputEngine::new();
    assert_eq!(engine.preedit_char(), None);
    assert_eq!(engine.reset(), None);
    assert_eq!(engine.reset(), None);
    assert_eq!(engine.preedit_char(), None);
}

#[test]
fn reset_keeps_the_language_mode() {
    let config = Config::new();
    let mut engine = InputEngine::new();
    engine.update_hangul_state();
    engine.reset();
    assert_eq!(engine.press_key(&config, KEY_R, 0), bypass(Some('r')));
    engine.update_hangul_state();
    engine.reset();
    assert_eq!(engine.press_key(&config, KEY_R, 0), preedit('ㄱ'));
}
