//! How rows look, as a value that the caller hands in.

use vstd::prelude::*;
use vstd::string::*;

verus! {

/// A terminal colour.
#[derive(Clone, Copy, Debug, PartialEq, Eq, Structural)]
pub enum Color {
    /// Whatever the terminal uses when nothing is set.
    Default,
    Black,
    Red,
    Green,
    Yellow,
    Blue,
    Magenta,
    Cyan,
    Gray,
    White,
}

/// Colours and weight of a piece of text.
#[derive(Clone, Copy, Debug, PartialEq, Eq, Structural)]
pub struct Style {
    pub foreground: Color,
    pub background: Color,
    pub bold: bool,
}

/// The styles of the destination list.
#[derive(Clone, Debug, PartialEq, Eq)]
pub struct StyleConfig {
    /// Style of a row that is not highlighted.
    pub item: Style,
    /// Style of the highlighted row.
    pub selected: Style,
    /// Text put in front of the highlighted row.
    pub highlight_symbol: String,
}

/// What a [`StyleConfig`] holds, as mathematical values.
pub struct StyleConfigView {
    pub item: Style,
    pub selected: Style,
    pub highlight_symbol: Seq<char>,
}

impl DeepView for StyleConfig {
    type V = StyleConfigView;

    open spec fn deep_view(&self) -> StyleConfigView {
        StyleConfigView {
            item: self.item,
            selected: self.selected,
            highlight_symbol: self.highlight_symbol@,
        }
    }
}

/// The usual look: white rows, the highlighted one in bold black on white
/// behind an arrow.
pub open spec fn default_style() -> StyleConfigView {
    StyleConfigView {
        item: Style { foreground: Color::White, background: Color::Default, bold: false },
        selected: Style { foreground: Color::Black, background: Color::White, bold: true },
        highlight_symbol: "-> "@,
    }
}

impl Default for StyleConfig {
    fn default() -> (config: Self)
        ensures
            config.deep_view() == default_style(),
    {
        StyleConfig {
            item: Style { foreground: Color::White, background: Color::Default, bold: false },
            selected: Style { foreground: Color::Black, background: Color::White, bold: true },
            highlight_symbol: String::from_str("-> "),
        }
    }
}

} // verus!
