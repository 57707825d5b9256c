//! Styled runs of text, produced through the `colorful` crate.
//!
//! Each function here hands its text to `colorful` and states the exact
//! bytes that come back: `colorful` opens a run with 256-colour foreground
//! and background escapes and semicolon-joined style codes, and closes it
//! with a reset.

use colorful::Color;
use colorful::Colorful;
use vstd::prelude::*;

verus! {

/// Opens a bold, white-on-red run: foreground 15, background 1, style 1.
pub const WHITE_ON_RED_BOLD: &'static str = "\u{001b}[38;5;15m\u{001b}[48;5;1;1m";

/// Opens a bold red run: foreground 1, style 1.
pub const RED_BOLD: &'static str = "\u{001b}[38;5;1;1m";

/// Opens a yellow run: foreground 3.
pub const YELLOW: &'static str = "\u{001b}[38;5;3m";

/// Opens a dim white run: foreground 15, style 2.
pub const WHITE_DIM: &'static str = "\u{001b}[38;5;15;2m";

/// Closes every styled run.
pub const STYLE_RESET: &'static str = "\u{001b}[0m";

/// Relies on `colorful::Colorful::color`, `bg_color` and `bold`, and on the
/// `Display` of the styled string they build: white foreground (code 15),
/// red background (code 1) and the bold style (code 1) open the run, and a
/// reset closes it, with the text unchanged between them.
#[verifier::external_body]
pub(crate) fn white_on_red_bold(s: &str) -> (r: String)
    ensures
        r@ == WHITE_ON_RED_BOLD@ + s@ + STYLE_RESET@,
{
    format!("{}", s.color(Color::White).bg_color(Color::Red).bold())
}

/// Relies on `colorful::Colorful::color` and `bold`, and on the `Display`
/// of the styled string they build: red foreground (code 1) and the bold
/// style (code 1) open the run, and a reset closes it, with the text
/// unchanged between them.
#[verifier::external_body]
pub(crate) fn red_bold(s: &str) -> (r: String)
    ensures
        r@ == RED_BOLD@ + s@ + STYLE_RESET@,
{
    format!("{}", s.color(Color::Red).bold())
}

/// Relies on `colorful::Colorful::color`, and on the `Display` of the
/// styled string it builds: yellow foreground (code 3) opens the run, and a
/// reset closes it, with the text unchanged between them.
#[verifier::external_body]
pub(crate) fn yellow(s: &str) -> (r: String)
    ensures
        r@ == YELLOW@ + s@ + STYLE_RESET@,
{
    format!("{}", s.color(Color::Yellow))
}

/// Relies on `colorful::Colorful::color` and `dim`, and on the `Display` of
/// the styled string they build: white foreground (code 15) and the dim
/// style (code 2) open the run, and a reset closes it, with the text
/// unchanged between them.
#[verifier::external_body]
pub(crate) fn white_dim(s: &str) -> (r: String)
    ensures
        r@ == WHITE_DIM@ + s@ + STYLE_RESET@,
{
    format!("{}", s.color(Color::White).dim())
}

} // verus!
