//! Keyboard layouts: what each hardware key means.
//!
//! A layout gives every pair of a hardware key code and a shift state a
//! [`KeyValue`]. One layout is built in, the two-set layout on a keyboard
//! that reports X11 key codes; any other is a list of bindings.

use vstd::prelude::*;

verus! {

/// What a layout says of one key.
#[derive(Clone, Copy, Debug, PartialEq, Eq)]
pub enum KeyValue {
    /// A modifier key such as Shift. Pressing it alone changes nothing.
    Modifier,
    /// A key with up to two legends: the Latin character it stands for when
    /// it passes the engine by, and the character of its Hangul layer.
    Text { latin: Option<char>, hangul: Option<char> },
}

/// One entry of a custom layout.
#[derive(Clone, Copy, Debug, PartialEq, Eq)]
pub struct KeyBinding {
    pub code: u16,
    /// The shift state that the entry is for. A modifier entry holds for both.
    pub shift: bool,
    pub value: KeyValue,
}

/// A keyboard layout.
#[derive(Debug)]
pub enum Layout {
    /// The built-in two-set layout.
    Dubeolsik,
    /// A list of bindings. Of several entries for one key the first counts;
    /// a key without an entry has no legend at all.
    Custom(Vec<KeyBinding>),
}

/// The mathematical content of a [`Layout`].
pub enum LayoutView {
    Dubeolsik,
    Custom(Seq<KeyBinding>),
}

impl View for Layout {
    type V = LayoutView;

    open spec fn view(&self) -> LayoutView {
        match self {
            Layout::Dubeolsik => LayoutView::Dubeolsik,
            Layout::Custom(bindings) => LayoutView::Custom(bindings@),
        }
    }
}

/// The value of a key that a layout does not mention.
pub open spec fn unbound() -> KeyValue {
    KeyValue::Text { latin: None, hangul: None }
}

/// Latin legends from the key 1 to the key `=`.
pub const LATIN_DIGITS: &'static str = "1234567890-=";

pub const LATIN_DIGITS_SHIFTED: &'static str = "!@#$%^&*()_+";

/// Latin legends from the key Q to the key `]`.
pub const LATIN_TOP: &'static str = "qwertyuiop[]";

pub const LATIN_TOP_SHIFTED: &'static str = "QWERTYUIOP{}";

/// Latin legends from the key A to the key `'`, and of the grave key, whose
/// code follows.
pub const LATIN_HOME: &'static str = "asdfghjkl;'`";

pub const LATIN_HOME_SHIFTED: &'static str = "ASDFGHJKL:\"~";

/// Latin legends of the backslash key and, after it, from the key Z to the
/// key `/`.
pub const LATIN_BOTTOM: &'static str = "\\zxcvbnm,./";

pub const LATIN_BOTTOM_SHIFTED: &'static str = "|ZXCVBNM<>?";

/// Hangul legends of the ten keys from Q to P.
pub const HANGUL_TOP: &'static str =
    "\u{3142}\u{3148}\u{3137}\u{3131}\u{3145}\u{315B}\u{3155}\u{3151}\u{3150}\u{3154}";

/// The same keys with shift: five doubled consonants and two more vowels.
pub const HANGUL_TOP_SHIFTED: &'static str =
    "\u{3143}\u{3149}\u{3138}\u{3132}\u{3146}\u{315B}\u{3155}\u{3151}\u{3152}\u{3156}";

/// Hangul legends of the nine keys from A to L, with shift or without.
pub const HANGUL_HOME: &'static str =
    "\u{3141}\u{3134}\u{3147}\u{3139}\u{314E}\u{3157}\u{3153}\u{314F}\u{3163}";

/// Hangul legends of the seven keys from Z to M, with shift or without.
pub const HANGUL_BOTTOM: &'static str =
    "\u{314B}\u{314C}\u{314A}\u{314D}\u{3160}\u{315C}\u{3161}";

/// Key code of the key 1.
pub const DIGITS_FIRST: u16 = 10;

/// Key code of the key Q.
pub const TOP_FIRST: u16 = 24;

/// Key code of the key A.
pub const HOME_FIRST: u16 = 38;

/// Key code of the backslash key.
pub const BOTTOM_FIRST: u16 = 51;

/// Key code of the key Z.
pub const BOTTOM_LETTERS_FIRST: u16 = 52;

/// Key code of the space bar.
pub const SPACE_CODE: u16 = 65;

/// The character that `row` holds for `code`, when the row's first key has
/// the code `first`.
pub open spec fn row_char(row: Seq<char>, first: u16, code: u16) -> Option<char> {
    if first <= code && code - first < row.len() {
        Some(row[code - first])
    } else {
        None
    }
}

/// The first legend that is there.
pub open spec fn first_of(a: Option<char>, b: Option<char>) -> Option<char> {
    if a is Some {
        a
    } else {
        b
    }
}

/// The key codes of the two Control, Shift, Alt and Super keys.
pub open spec fn is_modifier_code(code: u16) -> bool {
    code == 37 || code == 50 || code == 62 || code == 64 || code == 105 || code == 108 || code
        == 133 || code == 134
}

/// The Latin legend of a key of the built-in layout.
pub open spec fn qwerty_latin(code: u16, shift: bool) -> Option<char> {
    if code == SPACE_CODE {
        Some(' ')
    } else if is_modifier_code(code) {
        None
    } else if shift {
        first_of(
            first_of(
                row_char(LATIN_DIGITS_SHIFTED@, DIGITS_FIRST, code),
                row_char(LATIN_TOP_SHIFTED@, TOP_FIRST, code),
            ),
            first_of(
                row_char(LATIN_HOME_SHIFTED@, HOME_FIRST, code),
                row_char(LATIN_BOTTOM_SHIFTED@, BOTTOM_FIRST, code),
            ),
        )
    } else {
        first_of(
            first_of(
                row_char(LATIN_DIGITS@, DIGITS_FIRST, code),
                row_char(LATIN_TOP@, TOP_FIRST, code),
            ),
            first_of(
                row_char(LATIN_HOME@, HOME_FIRST, code),
                row_char(LATIN_BOTTOM@, BOTTOM_FIRST, code),
            ),
        )
    }
}

/// The Hangul legend of a key of the built-in layout.
pub open spec fn dubeolsik_hangul(code: u16, shift: bool) -> Option<char> {
    first_of(
        row_char(
            if shift {
                HANGUL_TOP_SHIFTED@
            } else {
                HANGUL_TOP@
            },
            TOP_FIRST,
            code,
        ),
        first_of(
            row_char(HANGUL_HOME@, HOME_FIRST, code),
            row_char(HANGUL_BOTTOM@, BOTTOM_LETTERS_FIRST, code),
        ),
    )
}

/// What the built-in layout says of a key.
pub open spec fn dubeolsik_value(code: u16, shift: bool) -> KeyValue {
    if is_modifier_code(code) {
        KeyValue::Modifier
    } else {
        KeyValue::Text { latin: qwerty_latin(code, shift), hangul: dubeolsik_hangul(code, shift) }
    }
}

/// Whether an entry of a custom layout is the one for this key and shift state.
pub open spec fn binding_applies(binding: KeyBinding, code: u16, shift: bool) -> bool {
    binding.code == code && (binding.value is Modifier || binding.shift == shift)
}

/// What a list of bindings says of a key: the value of the first entry that
/// applies, and [`unbound`] where none does.
pub open spec fn bound_value(bindings: Seq<KeyBinding>, code: u16, shift: bool) -> KeyValue
    decreases bindings.len(),
{
    if bindings.len() == 0 {
        unbound()
    } else if binding_applies(bindings[0], code, shift) {
        bindings[0].value
    } else {
        bound_value(bindings.skip(1), code, shift)
    }
}

impl LayoutView {
    /// What the layout says of a key.
    pub open spec fn value(self, code: u16, shift: bool) -> KeyValue {
        match self {
            LayoutView::Dubeolsik => dubeolsik_value(code, shift),
            LayoutView::Custom(bindings) => bound_value(bindings, code, shift),
        }
    }
}

/// Looks `code` up in a row of legends.
fn pick(row: &str, first: u16, code: u16) -> (c: Option<char>)
    ensures
        c == row_char(row@, first, code),
{
    if code < first {
        return None;
    }
    let at: usize = (code - first) as usize;
    if at < row.unicode_len() {
        Some(row.get_char(at))
    } else {
        None
    }
}

/// The first legend that is there.
fn first_legend(a: Option<char>, b: Option<char>) -> (c: Option<char>)
    ensures
        c == first_of(a, b),
{
    match a {
        Some(_) => a,
        None => b,
    }
}

/// Tells whether `code` is the code of a modifier key.
fn modifier_code(code: u16) -> (yes: bool)
    ensures
        yes == is_modifier_code(code),
{
    code == 37 || code == 50 || code == 62 || code == 64 || code == 105 || code == 108 || code
        == 133 || code == 134
}

/// The Latin legend of a key of the built-in layout.
fn latin_legend(code: u16, shift: bool) -> (c: Option<char>)
    ensures
        c == qwerty_latin(code, shift),
{
    if code == SPACE_CODE {
        Some(' ')
    } else if modifier_code(code) {
        None
    } else if shift {
        first_legend(
            first_legend(
                pick(LATIN_DIGITS_SHIFTED, DIGITS_FIRST, code),
                pick(LATIN_TOP_SHIFTED, TOP_FIRST, code),
            ),
            first_legend(
                pick(LATIN_HOME_SHIFTED, HOME_FIRST, code),
                pick(LATIN_BOTTOM_SHIFTED, BOTTOM_FIRST, code),
            ),
        )
    } else {
        first_legend(
            first_legend(
                pick(LATIN_DIGITS, DIGITS_FIRST, code),
                pick(LATIN_TOP, TOP_FIRST, code),
            ),
            first_legend(
                pick(LATIN_HOME, HOME_FIRST, code),
                pick(LATIN_BOTTOM, BOTTOM_FIRST, code),
            ),
        )
    }
}

/// The Hangul legend of a key of the built-in layout.
fn hangul_legend(code: u16, shift: bool) -> (c: Option<char>)
    ensures
        c == dubeolsik_hangul(code, shift),
{
    let top = if shift {
        pick(HANGUL_TOP_SHIFTED, TOP_FIRST, code)
    } else {
        pick(HANGUL_TOP, TOP_FIRST, code)
    };
    first_legend(
        top,
        first_legend(
            pick(HANGUL_HOME, HOME_FIRST, code),
            pick(HANGUL_BOTTOM, BOTTOM_LETTERS_FIRST, code),
        ),
    )
}

/// Finds the value of a key in a list of bindings.
fn find_bound(bindings: &Vec<KeyBinding>, code: u16, shift: bool) -> (value: KeyValue)
    ensures
        value == bound_value(bindings@, code, shift),
{
    let mut at: usize = 0;
    assert(bindings@.skip(0) =~= bindings@);
    while at < bindings.len()
        invariant
            at <= bindings.len(),
            bound_value(bindings@, code, shift) == bound_value(
                bindings@.skip(at as int),
                code,
                shift,
            ),
        decreases bindings.len() - at,
    {
        let binding = bindings[at];
        let is_modifier = match binding.value {
            KeyValue::Modifier => true,
            KeyValue::Text { .. } => false,
        };
        proof {
            let rest = bindings@.skip(at as int);
            assert(rest[0] == bindings@[at as int]);
            assert(rest.skip(1) =~= bindings@.skip(at + 1));
        }
        if binding.code == code && (is_modifier || binding.shift == shift) {
            return binding.value;
        }
        at = at + 1;
    }
    proof {
        assert(bindings@.skip(at as int).len() == 0);
    }
    KeyValue::Text { latin: None, hangul: None }
}

impl Layout {
    /// What the layout says of the key `code` in the shift state `shift`.
    pub fn key_value(&self, code: u16, shift: bool) -> (value: KeyValue)
        ensures
            value == self@.value(code, shift),
    {
        match self {
            Layout::Dubeolsik => {
                if modifier_code(code) {
                    KeyValue::Modifier
                } else {
                    KeyValue::Text {
                        latin: latin_legend(code, shift),
                        hangul: hangul_legend(code, shift),
                    }
                }
            },
            Layout::Custom(bindings) => find_bound(bindings, code, shift),
        }
    }
}

} // verus!
