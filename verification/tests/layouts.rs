use kime_engine::{
    Config, InputEngine, InputResult, InputResultType, KeyBinding, KeyValue, Layout,
    MODIFIER_SHIFT,
};

fn text(code: u16, shift: bool, latin: Option<char>, hangul: Option<char>) -> KeyBinding {
    KeyBinding { code, shift, value: KeyValue::Text { latin, hangul } }
}

fn custom(bindings: Vec<KeyBinding>, doubling: bool) -> Config {
    Config::with_settings(Layout::Custom(bindings), doubling, String::from("Serif"), 0)
}

fn small_layout() -> Vec<KeyBinding> {
    vec![
        text(1, false, Some('g'), Some('ㄱ')),
        text(1, true, Some('G'), Some('ㄲ')),
        text(2, false, Some('a'), Some('ㅏ')),
        text(3, false, Some('\\'), Some('₩')),
        text(4, false, Some('x'), None),
        KeyBinding { code: 5, shift: false, value: KeyValue::Modifier },
        text(6, false, None, Some('ㄳ')),
        text(7, false, Some('s'), Some('ㅅ')),
        text(8, false, Some('d'), Some('ㄷ')),
        text(9, false, Some('b'), Some('ㅂ')),
        text(10, false, Some('j'), Some('ㅈ')),
    ]
}

#[test]
fn built_in_layout_has_both_legends() {
    let layout = Layout::Dubeolsik;
    assert_eq!(
        layout.key_value(27, false),
        KeyValue::Text { latin: Some('r'), hangul: Some('ㄱ') }
    );
    assert_eq!(
        layout.key_value(27, true),
        KeyValue::Text { latin: Some('R'), hangul: Some('ㄲ') }
    );
    assert_eq!(
        layout.key_value(38, true),
        KeyValue::Text { latin: Some('A'), hangul: Some('ㅁ') }
    );
    assert_eq!(
        layout.key_value(58, false),
        KeyValue::Text { latin: Some('m'), hangul: Some('ㅡ') }
    );
    assert_eq!(layout.key_value(59, false), KeyValue::Text { latin: Some(','), hangul: None });
    assert_eq!(layout.key_value(51, true), KeyValue::Text { latin: Some('|'), hangul: None });
    assert_eq!(layout.key_value(49, false), KeyValue::Text { latin: Some('`'), hangul: None });
    assert_eq!(layout.key_value(65, true), KeyValue::Text { latin: Some(' '), hangul: None });
    assert_eq!(layout.key_value(36, false), KeyValue::Text { latin: None, hangul: None });
}

#[test]
fn built_in_layout_types_every_letter() {
    let layout = Layout::Dubeolsik;
    let rows: [(u16, &str, &str, &str, &str); 3] = [
        (24, "qwertyuiop", "QWERTYUIOP", "ㅂㅈㄷㄱㅅㅛㅕㅑㅐㅔ", "ㅃㅉㄸㄲㅆㅛㅕㅑㅒㅖ"),
        (38, "asdfghjkl", "ASDFGHJKL", "ㅁㄴㅇㄹㅎㅗㅓㅏㅣ", "ㅁㄴㅇㄹㅎㅗㅓㅏㅣ"),
        (52, "zxcvbnm", "ZXCVBNM", "ㅋㅌㅊㅍㅠㅜㅡ", "ㅋㅌㅊㅍㅠㅜㅡ"),
    ];
    for (first, latin, latin_shifted, hangul, hangul_shifted) in rows {
        for at in 0..latin.len() {
            let code = first + at as u16;
            assert_eq!(
                layout.key_value(code, false),
                KeyValue::Text {
                    latin: latin.chars().nth(at),
                    hangul: hangul.chars().nth(at),
                }
            );
            assert_eq!(
                layout.key_value(code, true),
                KeyValue::Text {
                    latin: latin_shifted.chars().nth(at),
                    hangul: hangul_shifted.chars().nth(at),
                }
            );
        }
    }
}

#[test]
fn built_in_layout_knows_the_modifier_keys() {
    let layout = Layout::Dubeolsik;
    for code in [37, 50, 62, 64, 105, 108, 133, 134] {
        assert_eq!(layout.key_value(code, false), KeyValue::Modifier);
        assert_eq!(layout.key_value(code, true), KeyValue::Modifier);
    }
}

#[test]
fn custom_layout_takes_the_first_entry() {
    let layout = Layout::Custom(vec![
        text(1, false, Some('a'), None),
        text(1, false, Some('b'), None),
        text(1, true, Some('c'), None),
        KeyBinding { code: 2, shift: true, value: KeyValue::Modifier },
        text(2, false, Some('d'), None),
    ]);
    assert_eq!(layout.key_value(1, false), KeyValue::Text { latin: Some('a'), hangul: None });
    assert_eq!(layout.key_value(1, true), KeyValue::Text { latin: Some('c'), hangul: None });
    assert_eq!(layout.key_value(2, false), KeyValue::Modifier);
    assert_eq!(layout.key_value(2, true), KeyValue::Modifier);
    assert_eq!(layout.key_value(3, false), KeyValue::Text { latin: None, hangul: None });
    let empty = Layout::Custom(Vec::new());
    assert_eq!(empty.key_value(1, false), KeyValue::Text { latin: None, hangul: None });
}

#[test]
fn custom_layout_drives_the_engine() {
    let config = custom(small_layout(), false);
    let mut engine = InputEngine::new();
    assert_eq!(
        engine.press_key(&config, 1, MODIFIER_SHIFT),
        InputResult { ty: InputResultType::Preedit, char1: Some('ㄲ'), char2: None }
    );
    assert_eq!(
        engine.press_key(&config, 2, 0),
        InputResult { ty: InputResultType::Preedit, char1: Some('까'), char2: None }
    );
    // Key 2 has no entry for shift: it has no legend at all there.
    assert_eq!(
        engine.press_key(&config, 2, MODIFIER_SHIFT),
        InputResult { ty: InputResultType::CommitBypass, char1: Some('까'), char2: None }
    );
    // The built-in codes mean nothing in this layout.
    assert_eq!(
        engine.press_key(&config, 27, 0),
        InputResult { ty: InputResultType::Bypass, char1: None, char2: None }
    );
}

#[test]
fn symbol_is_committed_as_it_is() {
    let config = custom(small_layout(), false);
    let mut engine = InputEngine::new();
    assert_eq!(
        engine.press_key(&config, 3, 0),
        InputResult { ty: InputResultType::Commit, char1: Some('₩'), char2: None }
    );
    assert_eq!(engine.preedit_char(), None);
    engine.press_key(&config, 1, 0);
    engine.press_key(&config, 2, 0);
    assert_eq!(
        engine.press_key(&config, 3, 0),
        InputResult { ty: InputResultType::CommitCommit, char1: Some('가'), char2: Some('₩') }
    );
    assert_eq!(engine.preedit_char(), None);
}

#[test]
fn cluster_letter_of_a_layout_is_a_symbol() {
    let config = custom(small_layout(), false);
    let mut engine = InputEngine::new();
    engine.press_key(&config, 1, 0);
    engine.press_key(&config, 2, 0);
    assert_eq!(
        engine.press_key(&config, 6, 0),
        InputResult { ty: InputResultType::CommitCommit, char1: Some('가'), char2: Some('ㄳ') }
    );
}

#[test]
fn symbol_passes_while_hangul_is_off() {
    let config = custom(small_layout(), false);
    let mut engine = InputEngine::new();
    engine.update_hangul_state();
    assert_eq!(
        engine.press_key(&config, 3, 0),
        InputResult { ty: InputResultType::Bypass, char1: Some('\\'), char2: None }
    );
}

#[test]
fn custom_modifier_key_changes_nothing() {
    let config = custom(small_layout(), false);
    let mut engine = InputEngine::new();
    engine.press_key(&config, 1, 0);
    for modifiers in [0, MODIFIER_SHIFT] {
        assert_eq!(
            engine.press_key(&config, 5, modifiers),
            InputResult { ty: InputResultType::Bypass, char1: None, char2: None }
        );
        assert_eq!(engine.preedit_char(), Some('ㄱ'));
    }
}

#[test]
fn doubling_joins_two_plain_consonants() {
    let config = custom(small_layout(), true);
    let pairs = [(1, 'ㄱ', 'ㄲ'), (7, 'ㅅ', 'ㅆ'), (8, 'ㄷ', 'ㄸ'), (9, 'ㅂ', 'ㅃ'), (10, 'ㅈ', 'ㅉ')];
    for (code, plain, doubled) in pairs {
        let mut engine = InputEngine::new();
        assert_eq!(
            engine.press_key(&config, code, 0),
            InputResult { ty: InputResultType::Preedit, char1: Some(plain), char2: None }
        );
        assert_eq!(
            engine.press_key(&config, code, 0),
            InputResult { ty: InputResultType::Preedit, char1: Some(doubled), char2: None }
        );
        assert_eq!(
            engine.press_key(&config, code, 0),
            InputResult {
                ty: InputResultType::CommitPreedit,
                char1: Some(doubled),
                char2: Some(plain),
            }
        );
    }
}

#[test]
fn doubling_needs_the_same_consonant() {
    let config = custom(small_layout(), true);
    let mut engine = InputEngine::new();
    engine.press_key(&config, 1, 0);
    assert_eq!(
        engine.press_key(&config, 7, 0),
        InputResult { ty: InputResultType::CommitPreedit, char1: Some('ㄱ'), char2: Some('ㅅ') }
    );
}

#[test]
fn without_doubling_the_second_consonant_starts_anew() {
    let config = custom(small_layout(), false);
    let mut engine = InputEngine::new();
    engine.press_key(&config, 1, 0);
    assert_eq!(
        engine.press_key(&config, 1, 0),
        InputResult { ty: InputResultType::CommitPreedit, char1: Some('ㄱ'), char2: Some('ㄱ') }
    );
    let built_in = Config::new();
    assert!(!built_in.doubles_consonants());
    let mut other = InputEngine::new();
    other.press_key(&built_in, 27, 0);
    assert_eq!(
        other.press_key(&built_in, 27, 0),
        InputResult { ty: InputResultType::CommitPreedit, char1: Some('ㄱ'), char2: Some('ㄱ') }
    );
}

#[test]
fn doubling_does_not_reach_the_trailing_consonant() {
    let config = custom(small_layout(), true);
    let mut engine = InputEngine::new();
    engine.press_key(&config, 1, 0);
    engine.press_key(&config, 2, 0);
    assert_eq!(
        engine.press_key(&config, 1, 0),
        InputResult { ty: InputResultType::Preedit, char1: Some('각'), char2: None }
    );
    assert_eq!(
        engine.press_key(&config, 1, 0),
        InputResult { ty: InputResultType::CommitPreedit, char1: Some('각'), char2: Some('ㄱ') }
    );
    assert_eq!(
        engine.press_key(&config, 1, 0),
        InputResult { ty: InputResultType::Preedit, char1: Some('ㄲ'), char2: None }
    );
}

#[test]
fn default_font_is_d2coding_at_15_points() {
    let config = Config::new();
    let (family, size) = config.xim_font();
    assert_eq!(family, "D2Coding");
    assert_eq!(size, 0x402E_0000_0000_0000);
    assert_eq!(f64::from_bits(size), 15.0);
    assert_eq!(config.xim_font(), config.xim_font());
}

#[test]
fn settings_are_kept_as_given() {
    let config = Config::with_settings(
        Layout::Custom(small_layout()),
        true,
        String::from("Noto Sans CJK KR"),
        12.5f64.to_bits(),
    );
    let (family, size) = config.xim_font();
    assert_eq!(family, "Noto Sans CJK KR");
    assert_eq!(f64::from_bits(size), 12.5);
    assert!(config.doubles_consonants());
    assert_eq!(
        config.layout().key_value(4, false),
        KeyValue::Text { latin: Some('x'), hangul: None }
    );
}
