//! Terminal styling. Text is painted through `ansi_term`; the exact escape
//! sequences the crate emits are stated here, so contracts about rendered
//! report lines can speak about the styled text character for character.

use vstd::prelude::*;

verus! {

/// The eight standard terminal colors the report uses.
#[derive(Clone, Copy, PartialEq, Eq, Structural, Debug)]
pub enum Hue {
    Black,
    Red,
    Green,
    Yellow,
    Blue,
    Purple,
    Cyan,
    White,
}

/// The last digit of a hue's ANSI color code (foreground `3x`,
/// background `4x`).
pub open spec fn spec_hue_digit(h: Hue) -> char {
    match h {
        Hue::Black => '0',
        Hue::Red => '1',
        Hue::Green => '2',
        Hue::Yellow => '3',
        Hue::Blue => '4',
        Hue::Purple => '5',
        Hue::Cyan => '6',
        Hue::White => '7',
    }
}

/// The sequence that returns the terminal to its default style.
pub open spec fn spec_style_reset() -> Seq<char> {
    seq!['\u{1b}', '[', '0', 'm']
}

/// `text` styled bold with foreground hue `h`.
pub open spec fn spec_bold_painted(h: Hue, text: Seq<char>) -> Seq<char> {
    seq!['\u{1b}', '[', '1', ';', '3', spec_hue_digit(h), 'm'] + text + spec_style_reset()
}

/// `text` styled with identical foreground and background hue `h`,
/// rendering a solid block of that color.
pub open spec fn spec_block_painted(h: Hue, text: Seq<char>) -> Seq<char> {
    seq!['\u{1b}', '[', '4', spec_hue_digit(h), ';', '3', spec_hue_digit(h), 'm'] + text
        + spec_style_reset()
}

/// Relies on `ansi_term::Colour::bold`, `Style::paint` and the `Display`
/// impl of `ANSIGenericString`: a bold foreground style renders as
/// `\x1B[1;3<code>m`, then the text, then the reset `\x1B[0m`.
#[verifier::external_body]
pub fn paint_bold(h: Hue, text: &str) -> (r: String)
    ensures
        r@ == spec_bold_painted(h, text@),
{
    let c = match h {
        Hue::Black => ansi_term::Colour::Black,
        Hue::Red => ansi_term::Colour::Red,
        Hue::Green => ansi_term::Colour::Green,
        Hue::Yellow => ansi_term::Colour::Yellow,
        Hue::Blue => ansi_term::Colour::Blue,
        Hue::Purple => ansi_term::Colour::Purple,
        Hue::Cyan => ansi_term::Colour::Cyan,
        Hue::White => ansi_term::Colour::White,
    };
    format!("{}", c.bold().paint(text))
}

/// Relies on `ansi_term::Colour::on`, `Style::paint` and the `Display`
/// impl of `ANSIGenericString`: with equal foreground and background the
/// prefix writes the background code first, `\x1B[4<code>;3<code>m`, then
/// the text, then the reset `\x1B[0m`.
#[verifier::external_body]
pub fn paint_block(h: Hue, text: &str) -> (r: String)
    ensures
        r@ == spec_block_painted(h, text@),
{
    let c = match h {
        Hue::Black => ansi_term::Colour::Black,
        Hue::Red => ansi_term::Colour::Red,
        Hue::Green => ansi_term::Colour::Green,
        Hue::Yellow => ansi_term::Colour::Yellow,
        Hue::Blue => ansi_term::Colour::Blue,
        Hue::Purple => ansi_term::Colour::Purple,
        Hue::Cyan => ansi_term::Colour::Cyan,
        Hue::White => ansi_term::Colour::White,
    };
    format!("{}", c.on(c).paint(text))
}

} // verus!
