//! ANSI escape sequences for terminal colors and styles: the specification
//! of a styled output's exact shape, and verified construction of one.

use vstd::prelude::*;
use vstd::string::StringExecFns;

use crate::decimal::dec_nat;
use crate::decimal::decimal_u64;

verus! {

/// The named colors and text styles, each standing for a fixed numeric
/// ANSI code.
#[derive(Clone, Copy, Debug, PartialEq, Eq, Structural)]
pub enum Style {
    Red,
    Green,
    Yellow,
    Magenta,
    Cyan,
    Blue,
    Bold,
    Underline,
    Blink,
}

/// The decimal digits of a named style's ANSI code.
pub open spec fn style_code(s: Style) -> Seq<char> {
    match s {
        Style::Red => seq!['3', '1'],
        Style::Green => seq!['3', '2'],
        Style::Yellow => seq!['3', '3'],
        Style::Magenta => seq!['3', '5'],
        Style::Cyan => seq!['3', '6'],
        Style::Blue => seq!['3', '4'],
        Style::Bold => seq!['1'],
        Style::Underline => seq!['4'],
        Style::Blink => seq!['5'],
    }
}

/// The code of a 24-bit true-color escape: `38;2;` followed by the three
/// components in decimal, separated by semicolons.
pub open spec fn rgb_code(r: u8, g: u8, b: u8) -> Seq<char> {
    seq!['3', '8', ';', '2', ';'] + dec_nat(r as nat) + seq![';'] + dec_nat(g as nat) + seq![';']
        + dec_nat(b as nat)
}

/// The code of a 256-color palette escape: `38;5;` followed by the palette
/// index in decimal.
pub open spec fn palette_code(code: u8) -> Seq<char> {
    seq!['3', '8', ';', '5', ';'] + dec_nat(code as nat)
}

/// A styled output in full: the escape prefix `ESC [ code m`, the text
/// verbatim, and the reset suffix `ESC [ 0 m`.
pub open spec fn styled(code: Seq<char>, text: Seq<char>) -> Seq<char> {
    seq!['\u{1b}', '['] + code + seq!['m'] + text + seq!['\u{1b}', '[', '0', 'm']
}

/// Every styled output begins with `ESC[`, carries the text verbatim after
/// the `m` that closes the code, and ends with the reset sequence `ESC[0m`.
pub proof fn lemma_styled_shape(code: Seq<char>, text: Seq<char>)
    ensures
        styled(code, text).len() == code.len() + text.len() + 7,
        styled(code, text).subrange(0, 2) =~= seq!['\u{1b}', '['],
        styled(code, text).subrange(2, 2 + code.len() as int) =~= code,
        styled(code, text)[2 + code.len() as int] == 'm',
        styled(code, text).subrange(
            3 + code.len() as int,
            3 + code.len() + text.len() as int,
        ) =~= text,
        styled(code, text).subrange(
            3 + code.len() + text.len() as int,
            styled(code, text).len() as int,
        ) =~= seq!['\u{1b}', '[', '0', 'm'],
{
}

/// Wraps a text in the escape sequence for a given code and the reset
/// sequence.
pub fn wrap_styled(code: &str, text: &str) -> (r: String)
    ensures
        r@ == styled(code@, text@),
{
    proof {
        reveal_strlit("\u{1b}[");
        reveal_strlit("m");
        reveal_strlit("\u{1b}[0m");
    }
    let mut s = String::from_str("\u{1b}[");
    s.append(code);
    s.append("m");
    s.append(text);
    s.append("\u{1b}[0m");
    assert(s@ =~= styled(code@, text@));
    s
}

/// The decimal digits of a named style's ANSI code, as a string.
pub fn style_code_str(s: Style) -> (c: &'static str)
    ensures
        c@ == style_code(s),
{
    proof {
        reveal_strlit("31");
        reveal_strlit("32");
        reveal_strlit("33");
        reveal_strlit("35");
        reveal_strlit("36");
        reveal_strlit("34");
        reveal_strlit("1");
        reveal_strlit("4");
        reveal_strlit("5");
    }
    match s {
        Style::Red => "31",
        Style::Green => "32",
        Style::Yellow => "33",
        Style::Magenta => "35",
        Style::Cyan => "36",
        Style::Blue => "34",
        Style::Bold => "1",
        Style::Underline => "4",
        Style::Blink => "5",
    }
}

/// Builds the code of a 24-bit true-color escape from its components.
pub fn rgb_code_string(r: u8, g: u8, b: u8) -> (c: String)
    ensures
        c@ == rgb_code(r, g, b),
{
    proof {
        reveal_strlit("38;2;");
        reveal_strlit(";");
    }
    let mut s = String::from_str("38;2;");
    let rd = decimal_u64(r as u64);
    s.append(rd.as_str());
    s.append(";");
    let gd = decimal_u64(g as u64);
    s.append(gd.as_str());
    s.append(";");
    let bd = decimal_u64(b as u64);
    s.append(bd.as_str());
    assert(s@ =~= rgb_code(r, g, b));
    s
}

/// Builds the code of a 256-color palette escape from the palette index.
pub fn palette_code_string(code: u8) -> (c: String)
    ensures
        c@ == palette_code(code),
{
    proof {
        reveal_strlit("38;5;");
    }
    let mut s = String::from_str("38;5;");
    let d = decimal_u64(code as u64);
    s.append(d.as_str());
    assert(s@ =~= palette_code(code));
    s
}

/// Applies a named style to a text.
pub fn paint_str(text: &str, style: Style) -> (r: String)
    ensures
        r@ == styled(style_code(style), text@),
{
    wrap_styled(style_code_str(style), text)
}

/// Applies a 24-bit true-color to a text.
pub fn paint_rgb_str(text: &str, rgb: (u8, u8, u8)) -> (r: String)
    ensures
        r@ == styled(rgb_code(rgb.0, rgb.1, rgb.2), text@),
{
    let code = rgb_code_string(rgb.0, rgb.1, rgb.2);
    wrap_styled(code.as_str(), text)
}

/// Applies a 256-color palette color to a text.
pub fn paint_palette_str(text: &str, code: u8) -> (r: String)
    ensures
        r@ == styled(palette_code(code), text@),
{
    let digits = palette_code_string(code);
    wrap_styled(digits.as_str(), text)
}

} // verus!
