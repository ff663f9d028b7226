//! The [`ByteColor`] trait: one operation per color or style, plus the two
//! parameterized operations, uniformly over numbers, text and byte
//! sequences.

use vstd::prelude::*;

use crate::ansi::Style;
use crate::ansi::paint_palette_str;
use crate::ansi::paint_rgb_str;
use crate::ansi::paint_str;
use crate::ansi::palette_code;
use crate::ansi::rgb_code;
use crate::ansi::style_code;
use crate::ansi::styled;
use crate::decimal::dec_int;
use crate::decimal::dec_nat;
use crate::decimal::decimal_i64;
use crate::decimal::decimal_u64;

verus! {

/// The characters that lossy UTF-8 decoding produces from a byte sequence
/// that is not valid UTF-8: the decodable parts, with every invalid byte
/// subsequence replaced by the Unicode replacement character.
pub uninterp spec fn lossy_utf8(bytes: Seq<u8>) -> Seq<char>;

/// The textual form of a byte sequence: the decoded text when the bytes are
/// valid UTF-8, and the lossy decoding otherwise.
pub open spec fn byte_text(bytes: Seq<u8>) -> Seq<char> {
    if vstd::utf8::valid_utf8(bytes) {
        vstd::utf8::decode_utf8(bytes)
    } else {
        lossy_utf8(bytes)
    }
}

/// Relies on String::from_utf8_lossy: the decoding is total and depends on
/// the bytes alone; valid UTF-8 passes through losslessly, so on such input
/// the result is exactly the decoded text; an empty input decodes to an
/// empty string.
#[verifier::external_body]
fn from_utf8_lossy(bytes: &[u8]) -> (r: String)
    ensures
        r@ == lossy_utf8(bytes@),
        vstd::utf8::valid_utf8(bytes@) ==> r@ == vstd::utf8::decode_utf8(bytes@),
        bytes@.len() == 0 ==> r@.len() == 0,
{
    String::from_utf8_lossy(bytes).into_owned()
}

/// Applies a named style to the decimal form of an unsigned value.
fn paint_u64(n: u64, style: Style) -> (r: String)
    ensures
        r@ == styled(style_code(style), dec_nat(n as nat)),
{
    let text = decimal_u64(n);
    paint_str(text.as_str(), style)
}

/// Applies a 24-bit true-color to the decimal form of an unsigned value.
fn paint_rgb_u64(n: u64, rgb: (u8, u8, u8)) -> (r: String)
    ensures
        r@ == styled(rgb_code(rgb.0, rgb.1, rgb.2), dec_nat(n as nat)),
{
    let text = decimal_u64(n);
    paint_rgb_str(text.as_str(), rgb)
}

/// Applies a 256-color palette color to the decimal form of an unsigned
/// value.
fn paint_palette_u64(n: u64, code: u8) -> (r: String)
    ensures
        r@ == styled(palette_code(code), dec_nat(n as nat)),
{
    let text = decimal_u64(n);
    paint_palette_str(text.as_str(), code)
}

/// Applies a named style to the decimal form of a signed value.
fn paint_i64(v: i64, style: Style) -> (r: String)
    ensures
        r@ == styled(style_code(style), dec_int(v as int)),
{
    let text = decimal_i64(v);
    paint_str(text.as_str(), style)
}

/// Applies a 24-bit true-color to the decimal form of a signed value.
fn paint_rgb_i64(v: i64, rgb: (u8, u8, u8)) -> (r: String)
    ensures
        r@ == styled(rgb_code(rgb.0, rgb.1, rgb.2), dec_int(v as int)),
{
    let text = decimal_i64(v);
    paint_rgb_str(text.as_str(), rgb)
}

/// Applies a 256-color palette color to the decimal form of a signed value.
fn paint_palette_i64(v: i64, code: u8) -> (r: String)
    ensures
        r@ == styled(palette_code(code), dec_int(v as int)),
{
    let text = decimal_i64(v);
    paint_palette_str(text.as_str(), code)
}

/// Applies a named style to the lossy UTF-8 decoding of a byte sequence.
fn paint_bytes(bytes: &[u8], style: Style) -> (r: String)
    ensures
        r@ == styled(style_code(style), byte_text(bytes@)),
{
    let text = from_utf8_lossy(bytes);
    paint_str(text.as_str(), style)
}

/// Applies a 24-bit true-color to the lossy UTF-8 decoding of a byte
/// sequence.
fn paint_rgb_bytes(bytes: &[u8], rgb: (u8, u8, u8)) -> (r: String)
    ensures
        r@ == styled(rgb_code(rgb.0, rgb.1, rgb.2), byte_text(bytes@)),
{
    let text = from_utf8_lossy(bytes);
    paint_rgb_str(text.as_str(), rgb)
}

/// Applies a 256-color palette color to the lossy UTF-8 decoding of a byte
/// sequence.
fn paint_palette_bytes(bytes: &[u8], code: u8) -> (r: String)
    ensures
        r@ == styled(palette_code(code), byte_text(bytes@)),
{
    let text = from_utf8_lossy(bytes);
    paint_palette_str(text.as_str(), code)
}

/// Decorates a value's textual form with ANSI color and style escape
/// sequences.
///
/// Every method returns a new string holding the escape prefix for its
/// color or style, the value's textual form, and the reset sequence. The
/// textual form is the canonical decimal representation for numbers, the
/// text itself for strings, and the lossy UTF-8 decoding for byte
/// sequences. No method fails and none mutates the value it is called on.
pub trait ByteColor {
    /// The textual form of the value that the escape sequences wrap.
    spec fn text_rep(&self) -> Seq<char>;

    /// Colors the text red (ANSI code 31).
    fn red(&self) -> (r: String)
        ensures
            r@ == styled(style_code(Style::Red), self.text_rep()),
    ;

    /// Colors the text green (ANSI code 32).
    fn green(&self) -> (r: String)
        ensures
            r@ == styled(style_code(Style::Green), self.text_rep()),
    ;

    /// Colors the text yellow (ANSI code 33).
    fn yellow(&self) -> (r: String)
        ensures
            r@ == styled(style_code(Style::Yellow), self.text_rep()),
    ;

    /// Colors the text magenta (ANSI code 35).
    fn magenta(&self) -> (r: String)
        ensures
            r@ == styled(style_code(Style::Magenta), self.text_rep()),
    ;

    /// Colors the text cyan (ANSI code 36).
    fn cyan(&self) -> (r: String)
        ensures
            r@ == styled(style_code(Style::Cyan), self.text_rep()),
    ;

    /// Colors the text blue (ANSI code 34).
    fn blue(&self) -> (r: String)
        ensures
            r@ == styled(style_code(Style::Blue), self.text_rep()),
    ;

    /// Makes the text bold (ANSI code 1).
    fn bold(&self) -> (r: String)
        ensures
            r@ == styled(style_code(Style::Bold), self.text_rep()),
    ;

    /// Underlines the text (ANSI code 4).
    fn underline(&self) -> (r: String)
        ensures
            r@ == styled(style_code(Style::Underline), self.text_rep()),
    ;

    /// Makes the text blink (ANSI code 5).
    fn blink(&self) -> (r: String)
        ensures
            r@ == styled(style_code(Style::Blink), self.text_rep()),
    ;

    /// Colors the text with a 24-bit true-color given by its red, green and
    /// blue components.
    fn rgb(&self, rgb: (u8, u8, u8)) -> (r: String)
        ensures
            r@ == styled(rgb_code(rgb.0, rgb.1, rgb.2), self.text_rep()),
    ;

    /// Colors the text with a color of the 256-color palette given by its
    /// index.
    fn color(&self, code: u8) -> (r: String)
        ensures
            r@ == styled(palette_code(code), self.text_rep()),
    ;
}

impl ByteColor for u64 {
    open spec fn text_rep(&self) -> Seq<char> {
        dec_nat(*self as nat)
    }

    fn red(&self) -> String {
        paint_u64(*self, Style::Red)
    }

    fn green(&self) -> String {
        paint_u64(*self, Style::Green)
    }

    fn yellow(&self) -> String {
        paint_u64(*self, Style::Yellow)
    }

    fn magenta(&self) -> String {
        paint_u64(*self, Style::Magenta)
    }

    fn cyan(&self) -> String {
        paint_u64(*self, Style::Cyan)
    }

    fn blue(&self) -> String {
        paint_u64(*self, Style::Blue)
    }

    fn bold(&self) -> String {
        paint_u64(*self, Style::Bold)
    }

    fn underline(&self) -> String {
        paint_u64(*self, Style::Underline)
    }

    fn blink(&self) -> String {
        paint_u64(*self, Style::Blink)
    }

    fn rgb(&self, rgb: (u8, u8, u8)) -> String {
        paint_rgb_u64(*self, rgb)
    }

    fn color(&self, code: u8) -> String {
        paint_palette_u64(*self, code)
    }
}

impl ByteColor for u8 {
    open spec fn text_rep(&self) -> Seq<char> {
        dec_nat(*self as nat)
    }

    fn red(&self) -> String {
        paint_u64(*self as u64, Style::Red)
    }

    fn green(&self) -> String {
        paint_u64(*self as u64, Style::Green)
    }

    fn yellow(&self) -> String {
        paint_u64(*self as u64, Style::Yellow)
    }

    fn magenta(&self) -> String {
        paint_u64(*self as u64, Style::Magenta)
    }

    fn cyan(&self) -> String {
        paint_u64(*self as u64, Style::Cyan)
    }

    fn blue(&self) -> String {
        paint_u64(*self as u64, Style::Blue)
    }

    fn bold(&self) -> String {
        paint_u64(*self as u64, Style::Bold)
    }

    fn underline(&self) -> String {
        paint_u64(*self as u64, Style::Underline)
    }

    fn blink(&self) -> String {
        paint_u64(*self as u64, Style::Blink)
    }

    fn rgb(&self, rgb: (u8, u8, u8)) -> String {
        paint_rgb_u64(*self as u64, rgb)
    }

    fn color(&self, code: u8) -> String {
        paint_palette_u64(*self as u64, code)
    }
}

impl ByteColor for u16 {
    open spec fn text_rep(&self) -> Seq<char> {
        dec_nat(*self as nat)
    }

    fn red(&self) -> String {
        paint_u64(*self as u64, Style::Red)
    }

    fn green(&self) -> String {
        paint_u64(*self as u64, Style::Green)
    }

    fn yellow(&self) -> String {
        paint_u64(*self as u64, Style::Yellow)
    }

    fn magenta(&self) -> String {
        paint_u64(*self as u64, Style::Magenta)
    }

    fn cyan(&self) -> String {
        paint_u64(*self as u64, Style::Cyan)
    }

    fn blue(&self) -> String {
        paint_u64(*self as u64, Style::Blue)
    }

    fn bold(&self) -> String {
        paint_u64(*self as u64, Style::Bold)
    }

    fn underline(&self) -> String {
        paint_u64(*self as u64, Style::Underline)
    }

    fn blink(&self) -> String {
        paint_u64(*self as u64, Style::Blink)
    }

    fn rgb(&self, rgb: (u8, u8, u8)) -> String {
        paint_rgb_u64(*self as u64, rgb)
    }

    fn color(&self, code: u8) -> String {
        paint_palette_u64(*self as u64, code)
    }
}

impl ByteColor for u32 {
    open spec fn text_rep(&self) -> Seq<char> {
        dec_nat(*self as nat)
    }

    fn red(&self) -> String {
        paint_u64(*self as u64, Style::Red)
    }

    fn green(&self) -> String {
        paint_u64(*self as u64, Style::Green)
    }

    fn yellow(&self) -> String {
        paint_u64(*self as u64, Style::Yellow)
    }

    fn magenta(&self) -> String {
        paint_u64(*self as u64, Style::Magenta)
    }

    fn cyan(&self) -> String {
        paint_u64(*self as u64, Style::Cyan)
    }

    fn blue(&self) -> String {
        paint_u64(*self as u64, Style::Blue)
    }

    fn bold(&self) -> String {
        paint_u64(*self as u64, Style::Bold)
    }

    fn underline(&self) -> String {
        paint_u64(*self as u64, Style::Underline)
    }

    fn blink(&self) -> String {
        paint_u64(*self as u64, Style::Blink)
    }

    fn rgb(&self, rgb: (u8, u8, u8)) -> String {
        paint_rgb_u64(*self as u64, rgb)
    }

    fn color(&self, code: u8) -> String {
        paint_palette_u64(*self as u64, code)
    }
}

impl ByteColor for usize {
    open spec fn text_rep(&self) -> Seq<char> {
        dec_nat(*self as nat)
    }

    fn red(&self) -> String {
        paint_u64(*self as u64, Style::Red)
    }

    fn green(&self) -> String {
        paint_u64(*self as u64, Style::Green)
    }

    fn yellow(&self) -> String {
        paint_u64(*self as u64, Style::Yellow)
    }

    fn magenta(&self) -> String {
        paint_u64(*self as u64, Style::Magenta)
    }

    fn cyan(&self) -> String {
        paint_u64(*self as u64, Style::Cyan)
    }

    fn blue(&self) -> String {
        paint_u64(*self as u64, Style::Blue)
    }

    fn bold(&self) -> String {
        paint_u64(*self as u64, Style::Bold)
    }

    fn underline(&self) -> String {
        paint_u64(*self as u64, Style::Underline)
    }

    fn blink(&self) -> String {
        paint_u64(*self as u64, Style::Blink)
    }

    fn rgb(&self, rgb: (u8, u8, u8)) -> String {
        paint_rgb_u64(*self as u64, rgb)
    }

    fn color(&self, code: u8) -> String {
        paint_palette_u64(*self as u64, code)
    }
}

impl ByteColor for i8 {
    open spec fn text_rep(&self) -> Seq<char> {
        dec_int(*self as int)
    }

    fn red(&self) -> String {
        paint_i64(*self as i64, Style::Red)
    }

    fn green(&self) -> String {
        paint_i64(*self as i64, Style::Green)
    }

    fn yellow(&self) -> String {
        paint_i64(*self as i64, Style::Yellow)
    }

    fn magenta(&self) -> String {
        paint_i64(*self as i64, Style::Magenta)
    }

    fn cyan(&self) -> String {
        paint_i64(*self as i64, Style::Cyan)
    }

    fn blue(&self) -> String {
        paint_i64(*self as i64, Style::Blue)
    }

    fn bold(&self) -> String {
        paint_i64(*self as i64, Style::Bold)
    }

    fn underline(&self) -> String {
        paint_i64(*self as i64, Style::Underline)
    }

    fn blink(&self) -> String {
        paint_i64(*self as i64, Style::Blink)
    }

    fn rgb(&self, rgb: (u8, u8, u8)) -> String {
        paint_rgb_i64(*self as i64, rgb)
    }

    fn color(&self, code: u8) -> String {
        paint_palette_i64(*self as i64, code)
    }
}

impl ByteColor for i16 {
    open spec fn text_rep(&self) -> Seq<char> {
        dec_int(*self as int)
    }

    fn red(&self) -> String {
        paint_i64(*self as i64, Style::Red)
    }

    fn green(&self) -> String {
        paint_i64(*self as i64, Style::Green)
    }

    fn yellow(&self) -> String {
        paint_i64(*self as i64, Style::Yellow)
    }

    fn magenta(&self) -> String {
        paint_i64(*self as i64, Style::Magenta)
    }

    fn cyan(&self) -> String {
        paint_i64(*self as i64, Style::Cyan)
    }

    fn blue(&self) -> String {
        paint_i64(*self as i64, Style::Blue)
    }

    fn bold(&self) -> String {
        paint_i64(*self as i64, Style::Bold)
    }

    fn underline(&self) -> String {
        paint_i64(*self as i64, Style::Underline)
    }

    fn blink(&self) -> String {
        paint_i64(*self as i64, Style::Blink)
    }

    fn rgb(&self, rgb: (u8, u8, u8)) -> String {
        paint_rgb_i64(*self as i64, rgb)
    }

    fn color(&self, code: u8) -> String {
        paint_palette_i64(*self as i64, code)
    }
}

impl ByteColor for i32 {
    open spec fn text_rep(&self) -> Seq<char> {
        dec_int(*self as int)
    }

    fn red(&self) -> String {
        paint_i64(*self as i64, Style::Red)
    }

    fn green(&self) -> String {
        paint_i64(*self as i64, Style::Green)
    }

    fn yellow(&self) -> String {
        paint_i64(*self as i64, Style::Yellow)
    }

    fn magenta(&self) -> String {
        paint_i64(*self as i64, Style::Magenta)
    }

    fn cyan(&self) -> String {
        paint_i64(*self as i64, Style::Cyan)
    }

    fn blue(&self) -> String {
        paint_i64(*self as i64, Style::Blue)
    }

    fn bold(&self) -> String {
        paint_i64(*self as i64, Style::Bold)
    }

    fn underline(&self) -> String {
        paint_i64(*self as i64, Style::Underline)
    }

    fn blink(&self) -> String {
        paint_i64(*self as i64, Style::Blink)
    }

    fn rgb(&self, rgb: (u8, u8, u8)) -> String {
        paint_rgb_i64(*self as i64, rgb)
    }

    fn color(&self, code: u8) -> String {
        paint_palette_i64(*self as i64, code)
    }
}

impl ByteColor for i64 {
    open spec fn text_rep(&self) -> Seq<char> {
        dec_int(*self as int)
    }

    fn red(&self) -> String {
        paint_i64(*self, Style::Red)
    }

    fn green(&self) -> String {
        paint_i64(*self, Style::Green)
    }

    fn yellow(&self) -> String {
        paint_i64(*self, Style::Yellow)
    }

    fn magenta(&self) -> String {
        paint_i64(*self, Style::Magenta)
    }

    fn cyan(&self) -> String {
        paint_i64(*self, Style::Cyan)
    }

    fn blue(&self) -> String {
        paint_i64(*self, Style::Blue)
    }

    fn bold(&self) -> String {
        paint_i64(*self, Style::Bold)
    }

    fn underline(&self) -> String {
        paint_i64(*self, Style::Underline)
    }

    fn blink(&self) -> String {
        paint_i64(*self, Style::Blink)
    }

    fn rgb(&self, rgb: (u8, u8, u8)) -> String {
        paint_rgb_i64(*self, rgb)
    }

    fn color(&self, code: u8) -> String {
        paint_palette_i64(*self, code)
    }
}

impl ByteColor for &str {
    open spec fn text_rep(&self) -> Seq<char> {
        self@
    }

    fn red(&self) -> String {
        paint_str(self, Style::Red)
    }

    fn green(&self) -> String {
        paint_str(self, Style::Green)
    }

    fn yellow(&self) -> String {
        paint_str(self, Style::Yellow)
    }

    fn magenta(&self) -> String {
        paint_str(self, Style::Magenta)
    }

    fn cyan(&self) -> String {
        paint_str(self, Style::Cyan)
    }

    fn blue(&self) -> String {
        paint_str(self, Style::Blue)
    }

    fn bold(&self) -> String {
        paint_str(self, Style::Bold)
    }

    fn underline(&self) -> String {
        paint_str(self, Style::Underline)
    }

    fn blink(&self) -> String {
        paint_str(self, Style::Blink)
    }

    fn rgb(&self, rgb: (u8, u8, u8)) -> String {
        paint_rgb_str(self, rgb)
    }

    fn color(&self, code: u8) -> String {
        paint_palette_str(self, code)
    }
}

impl ByteColor for String {
    open spec fn text_rep(&self) -> Seq<char> {
        self@
    }

    fn red(&self) -> String {
        paint_str(self.as_str(), Style::Red)
    }

    fn green(&self) -> String {
        paint_str(self.as_str(), Style::Green)
    }

    fn yellow(&self) -> String {
        paint_str(self.as_str(), Style::Yellow)
    }

    fn magenta(&self) -> String {
        paint_str(self.as_str(), Style::Magenta)
    }

    fn cyan(&self) -> String {
        paint_str(self.as_str(), Style::Cyan)
    }

    fn blue(&self) -> String {
        paint_str(self.as_str(), Style::Blue)
    }

    fn bold(&self) -> String {
        paint_str(self.as_str(), Style::Bold)
    }

    fn underline(&self) -> String {
        paint_str(self.as_str(), Style::Underline)
    }

    fn blink(&self) -> String {
        paint_str(self.as_str(), Style::Blink)
    }

    fn rgb(&self, rgb: (u8, u8, u8)) -> String {
        paint_rgb_str(self.as_str(), rgb)
    }

    fn color(&self, code: u8) -> String {
        paint_palette_str(self.as_str(), code)
    }
}

impl ByteColor for &[u8] {
    open spec fn text_rep(&self) -> Seq<char> {
        byte_text(self@)
    }

    fn red(&self) -> String {
        paint_bytes(self, Style::Red)
    }

    fn green(&self) -> String {
        paint_bytes(self, Style::Green)
    }

    fn yellow(&self) -> String {
        paint_bytes(self, Style::Yellow)
    }

    fn magenta(&self) -> String {
        paint_bytes(self, Style::Magenta)
    }

    fn cyan(&self) -> String {
        paint_bytes(self, Style::Cyan)
    }

    fn blue(&self) -> String {
        paint_bytes(self, Style::Blue)
    }

    fn bold(&self) -> String {
        paint_bytes(self, Style::Bold)
    }

    fn underline(&self) -> String {
        paint_bytes(self, Style::Underline)
    }

    fn blink(&self) -> String {
        paint_bytes(self, Style::Blink)
    }

    fn rgb(&self, rgb: (u8, u8, u8)) -> String {
        paint_rgb_bytes(self, rgb)
    }

    fn color(&self, code: u8) -> String {
        paint_palette_bytes(self, code)
    }
}

impl ByteColor for Vec<u8> {
    open spec fn text_rep(&self) -> Seq<char> {
        byte_text(self@)
    }

    fn red(&self) -> String {
        paint_bytes(self.as_slice(), Style::Red)
    }

    fn green(&self) -> String {
        paint_bytes(self.as_slice(), Style::Green)
    }

    fn yellow(&self) -> String {
        paint_bytes(self.as_slice(), Style::Yellow)
    }

    fn magenta(&self) -> String {
        paint_bytes(self.as_slice(), Style::Magenta)
    }

    fn cyan(&self) -> String {
        paint_bytes(self.as_slice(), Style::Cyan)
    }

    fn blue(&self) -> String {
        paint_bytes(self.as_slice(), Style::Blue)
    }

    fn bold(&self) -> String {
        paint_bytes(self.as_slice(), Style::Bold)
    }

    fn underline(&self) -> String {
        paint_bytes(self.as_slice(), Style::Underline)
    }

    fn blink(&self) -> String {
        paint_bytes(self.as_slice(), Style::Blink)
    }

    fn rgb(&self, rgb: (u8, u8, u8)) -> String {
        paint_rgb_bytes(self.as_slice(), rgb)
    }

    fn color(&self, code: u8) -> String {
        paint_palette_bytes(self.as_slice(), code)
    }
}

impl<const N: usize> ByteColor for &[u8; N] {
    open spec fn text_rep(&self) -> Seq<char> {
        byte_text(self@)
    }

    fn red(&self) -> String {
        paint_bytes(self.as_slice(), Style::Red)
    }

    fn green(&self) -> String {
        paint_bytes(self.as_slice(), Style::Green)
    }

    fn yellow(&self) -> String {
        paint_bytes(self.as_slice(), Style::Yellow)
    }

    fn magenta(&self) -> String {
        paint_bytes(self.as_slice(), Style::Magenta)
    }

    fn cyan(&self) -> String {
        paint_bytes(self.as_slice(), Style::Cyan)
    }

    fn blue(&self) -> String {
        paint_bytes(self.as_slice(), Style::Blue)
    }

    fn bold(&self) -> String {
        paint_bytes(self.as_slice(), Style::Bold)
    }

    fn underline(&self) -> String {
        paint_bytes(self.as_slice(), Style::Underline)
    }

    fn blink(&self) -> String {
        paint_bytes(self.as_slice(), Style::Blink)
    }

    fn rgb(&self, rgb: (u8, u8, u8)) -> String {
        paint_rgb_bytes(self.as_slice(), rgb)
    }

    fn color(&self, code: u8) -> String {
        paint_palette_bytes(self.as_slice(), code)
    }
}

} // verus!
