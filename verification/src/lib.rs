//! Terminal text decoration with ANSI escape sequences.
//!
//! The [`ByteColor`](color::ByteColor) trait wraps a value's textual form in
//! an ANSI color or style escape sequence and the matching reset sequence.
//! It is implemented for the primitive integer types, string slices, owned
//! strings, byte slices, byte vectors and references to fixed-size byte
//! arrays. Every method carries a contract that pins the produced string
//! down exactly, character by character.

pub mod ansi;
pub mod color;
pub mod decimal;

pub use color::ByteColor;
