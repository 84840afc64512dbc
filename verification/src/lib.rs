//! A Hangul composition engine: hardware key presses in, composed text out.
//!
//! An [`InputEngine`] keeps the syllable under composition between key
//! presses. It answers every press with an [`InputResult`], which tells the
//! host what to commit, what to show as preedit text and whether to pass the
//! key on. A [`Config`] holds the keyboard layout, the composition toggles
//! and the preedit font; many engines may read one configuration.
//!
//! Keys are named by their hardware codes. The built-in layout reads them as
//! X11 key codes; a host with other codes brings a layout of its own.

pub mod composition;
pub mod config;
pub mod engine;
pub mod jamo;
pub mod laws;
pub mod layout;
pub mod letters;
pub mod modifier;
pub mod result;
pub mod syllable;
pub mod unicode;

pub use config::Config;
pub use engine::InputEngine;
pub use layout::{KeyBinding, KeyValue, Layout};
pub use modifier::{
    is_valid_modifier_state, ModifierState, MODIFIER_ALT, MODIFIER_CONTROL, MODIFIER_SHIFT,
    MODIFIER_SUPER,
};
pub use result::{InputResult, InputResultType};
