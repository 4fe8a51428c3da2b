//! Colours for text that is shown on a terminal.
//!
//! The escape sequences come from the `inline_colorization` crate. Verus
//! does not look into that crate, so the four functions that fetch them
//! state what each constant holds; nothing else here is taken on trust.

use vstd::prelude::*;
use vstd::string::*;

verus! {

/// Whether text is produced bare or with terminal colours.
#[derive(Debug, Clone, Copy, PartialEq, Eq, Structural)]
pub enum Style {
    Plain,
    Colored,
}

/// The colours this library uses.
#[derive(Debug, Clone, Copy, PartialEq, Eq, Structural)]
pub enum Color {
    Red,
    Green,
    Yellow,
}

/// The escape sequence that switches the foreground to `color`:
/// ESC `[`, the colour's two digits, `m`.
pub open spec fn color_code(color: Color) -> Seq<char> {
    match color {
        Color::Red => seq!['\u{1b}', '[', '3', '1', 'm'],
        Color::Green => seq!['\u{1b}', '[', '3', '2', 'm'],
        Color::Yellow => seq!['\u{1b}', '[', '3', '3', 'm'],
    }
}

/// The escape sequence that switches back to the default foreground.
pub open spec fn reset_code() -> Seq<char> {
    seq!['\u{1b}', '[', '3', '9', 'm']
}

/// `text` as it is shown in `style`: bare, or between the colour's escape
/// sequence and the reset.
pub open spec fn painted(style: Style, color: Color, text: Seq<char>) -> Seq<char> {
    match style {
        Style::Plain => text,
        Style::Colored => color_code(color) + text + reset_code(),
    }
}

/// The constant `inline_colorization::color_red`, which that crate
/// defines as the five characters ESC `[31m`.
#[verifier::external_body]
fn red() -> (code: &'static str)
    ensures
        code@ == color_code(Color::Red),
{
    inline_colorization::color_red
}

/// The constant `inline_colorization::color_green`, which that crate
/// defines as the five characters ESC `[32m`.
#[verifier::external_body]
fn green() -> (code: &'static str)
    ensures
        code@ == color_code(Color::Green),
{
    inline_colorization::color_green
}

/// The constant `inline_colorization::color_yellow`, which that crate
/// defines as the five characters ESC `[33m`.
#[verifier::external_body]
fn yellow() -> (code: &'static str)
    ensures
        code@ == color_code(Color::Yellow),
{
    inline_colorization::color_yellow
}

/// The constant `inline_colorization::color_reset`, which that crate
/// defines as the five characters ESC `[39m`.
#[verifier::external_body]
fn reset() -> (code: &'static str)
    ensures
        code@ == reset_code(),
{
    inline_colorization::color_reset
}

/// Produces `text` in the given style and colour.
pub fn paint(style: Style, color: Color, text: &str) -> (out: String)
    ensures
        out@ == painted(style, color, text@),
{
    match style {
        Style::Plain => text.to_owned(),
        Style::Colored => {
            let code = match color {
                Color::Red => red(),
                Color::Green => green(),
                Color::Yellow => yellow(),
            };
            let mut out = String::from_str(code);
            out.append(text);
            out.append(reset());
            out
        },
    }
}

} // verus!
