//! Terminal colors and styles, as the `colored` crate writes them.

use vstd::prelude::*;
use crate::text::contains;
use colored::Colorize;

verus! {

/// A foreground color.
#[derive(Debug, Clone, Copy, PartialEq, Eq, Structural)]
pub enum Tint {
    /// No color of its own.
    Plain,
    Red,
    Green,
    Yellow,
    Blue,
    Magenta,
    Cyan,
    White,
    BrightBlack,
    BrightGreen,
}

/// A color with the bold and dimmed styles.
#[derive(Debug, Clone, Copy, PartialEq, Eq, Structural)]
pub struct Paint {
    pub fg: Tint,
    pub bold: bool,
    pub dimmed: bool,
}

/// The SGR number of a foreground color.
pub open spec fn tint_code(t: Tint) -> Seq<char> {
    match t {
        Tint::Plain => ""@,
        Tint::Red => "31"@,
        Tint::Green => "32"@,
        Tint::Yellow => "33"@,
        Tint::Blue => "34"@,
        Tint::Magenta => "35"@,
        Tint::Cyan => "36"@,
        Tint::White => "37"@,
        Tint::BrightBlack => "90"@,
        Tint::BrightGreen => "92"@,
    }
}

/// The paint adds nothing.
pub open spec fn is_plain(p: Paint) -> bool {
    p.fg == Tint::Plain && !p.bold && !p.dimmed
}

/// The escape sequence `colored` opens a painted text with: the styles
/// (bold `1`, dimmed `2`) then the color, separated by `;`.
pub open spec fn paint_code(p: Paint) -> Seq<char> {
    let styles = if p.bold && p.dimmed {
        "1;2"@
    } else if p.bold {
        "1"@
    } else if p.dimmed {
        "2"@
    } else {
        ""@
    };
    let sep = if styles.len() > 0 && p.fg != Tint::Plain {
        ";"@
    } else {
        ""@
    };
    "\u{1b}["@ + styles + sep + tint_code(p.fg) + "m"@
}

/// The code that ends painted text.
pub open spec fn reset_code() -> Seq<char> {
    "\u{1b}[0m"@
}

/// `r` is `s` as `colored` prints it with paint `p`: unchanged where colors
/// are off or the paint adds nothing, else between the paint's code and the
/// reset code. Where `s` holds a reset code itself, `colored` rewrites it,
/// and nothing is claimed.
pub open spec fn painted(r: Seq<char>, s: Seq<char>, p: Paint) -> bool {
    contains(s, reset_code()) || r == s || (!is_plain(p) && r == paint_code(p) + s + reset_code())
}

/// `s` painted by `colored` (`Colorize` methods, then `to_string`).
///
/// Whether codes are written depends on the environment and on overrides set
/// at run time, so the contract allows either form.
#[verifier::external_body]
pub(crate) fn paint(s: &str, p: Paint) -> (r: String)
    ensures
        painted(r@, s@, p),
{
    let c = match p.fg {
        Tint::Plain => s.normal(),
        Tint::Red => s.red(),
        Tint::Green => s.green(),
        Tint::Yellow => s.yellow(),
        Tint::Blue => s.blue(),
        Tint::Magenta => s.magenta(),
        Tint::Cyan => s.cyan(),
        Tint::White => s.white(),
        Tint::BrightBlack => s.bright_black(),
        Tint::BrightGreen => s.bright_green(),
    };
    let c = if p.bold { c.bold() } else { c };
    let c = if p.dimmed { c.dimmed() } else { c };
    c.to_string()
}

/// A color without styles.
pub open spec fn tinted(t: Tint) -> Paint {
    Paint { fg: t, bold: false, dimmed: false }
}

/// `s` in color `t`.
pub fn tint(s: &str, t: Tint) -> (r: String)
    ensures
        painted(r@, s@, tinted(t)),
{
    paint(s, Paint { fg: t, bold: false, dimmed: false })
}

} // verus!
