//! The configuration of an engine: set once, read ever after.

use crate::layout::{Layout, LayoutView};
use vstd::prelude::*;
use vstd::string::*;

verus! {

/// Font family of the preedit text where the host configures none.
pub const DEFAULT_FONT_FAMILY: &'static str = "D2Coding";

/// Font size where the host configures none: 15 points, as the bits of an
/// IEEE 754 double.
pub const DEFAULT_FONT_SIZE_BITS: u64 = 0x402E_0000_0000_0000;

/// What an engine needs to know besides the keys: the layout, the
/// composition toggles and how the host draws the preedit text. A
/// configuration has no operation that changes it.
#[derive(Debug)]
pub struct Config {
    layout: Layout,
    doubling: bool,
    font_family: String,
    font_size_bits: u64,
}

/// The mathematical content of a [`Config`].
pub struct ConfigView {
    pub layout: LayoutView,
    /// Whether two presses of a plain consonant make the doubled consonant.
    pub doubling: bool,
    pub font_family: Seq<char>,
    /// The font size in points, as the bits of an IEEE 754 double.
    pub font_size_bits: u64,
}

impl ConfigView {
    /// The configuration that the engine brings along.
    pub open spec fn defaults() -> ConfigView {
        ConfigView {
            layout: LayoutView::Dubeolsik,
            doubling: false,
            font_family: DEFAULT_FONT_FAMILY@,
            font_size_bits: DEFAULT_FONT_SIZE_BITS,
        }
    }
}

impl View for Config {
    type V = ConfigView;

    closed spec fn view(&self) -> ConfigView {
        ConfigView {
            layout: self.layout@,
            doubling: self.doubling,
            font_family: self.font_family@,
            font_size_bits: self.font_size_bits,
        }
    }
}

impl Config {
    /// The built-in configuration: the two-set layout, no doubling of
    /// consonants, and the default preedit font.
    pub fn new() -> (config: Config)
        ensures
            config@ == ConfigView::defaults(),
    {
        Config {
            layout: Layout::Dubeolsik,
            doubling: false,
            font_family: String::from_str(DEFAULT_FONT_FAMILY),
            font_size_bits: DEFAULT_FONT_SIZE_BITS,
        }
    }

    /// A configuration from the settings that the host has read from its store.
    pub fn with_settings(
        layout: Layout,
        doubling: bool,
        font_family: String,
        font_size_bits: u64,
    ) -> (config: Config)
        ensures
            config@ == (ConfigView {
                layout: layout@,
                doubling,
                font_family: font_family@,
                font_size_bits,
            }),
    {
        Config { layout, doubling, font_family, font_size_bits }
    }

    /// The font of the preedit text: its family and its size in points, the
    /// size as the bits of an IEEE 754 double.
    pub fn xim_font(&self) -> (font: (&str, u64))
        ensures
            font.0@ == self@.font_family,
            font.1 == self@.font_size_bits,
    {
        (self.font_family.as_str(), self.font_size_bits)
    }

    /// Whether two presses of a plain consonant make the doubled consonant.
    pub fn doubles_consonants(&self) -> (doubling: bool)
        ensures
            doubling == self@.doubling,
    {
        self.doubling
    }

    /// The layout.
    pub fn layout(&self) -> (layout: &Layout)
        ensures
            layout@ == self@.layout,
    {
        &self.layout
    }
}

} // verus!
