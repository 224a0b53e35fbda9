//! Colors of notes and connections.

use vstd::prelude::*;

use crate::text::str_eq;

verus! {

/// A terminal color: one of the named palette colors, a 24-bit color, or
/// an entry of the 256-color table.
#[derive(Clone, Copy, PartialEq, Eq, Debug, Structural)]
pub enum Color {
    Black,
    Blue,
    Cyan,
    DarkGray,
    Gray,
    Green,
    Indexed(u8),
    LightBlue,
    LightCyan,
    LightGreen,
    LightMagenta,
    LightRed,
    LightYellow,
    Magenta,
    Red,
    Reset,
    Rgb(u8, u8, u8),
    White,
    Yellow,
}

/// The name a color is shown and stored under; colors outside the palette
/// are "Custom".
pub open spec fn spec_color_name(c: Color) -> Seq<char> {
    match c {
        Color::Black => "Black"@,
        Color::Blue => "Blue"@,
        Color::Cyan => "Cyan"@,
        Color::DarkGray => "DarkGray"@,
        Color::Gray => "Gray"@,
        Color::Green => "Green"@,
        Color::LightBlue => "LightBlue"@,
        Color::LightCyan => "LightCyan"@,
        Color::LightGreen => "LightGreen"@,
        Color::LightMagenta => "LightMagenta"@,
        Color::LightRed => "LightRed"@,
        Color::LightYellow => "LightYellow"@,
        Color::Magenta => "Magenta"@,
        Color::Red => "Red"@,
        Color::Reset => "Reset"@,
        Color::White => "White"@,
        Color::Yellow => "Yellow"@,
        Color::Indexed(_) | Color::Rgb(_, _, _) => "Custom"@,
    }
}

/// The name a color is shown and stored under.
pub fn color_name(c: Color) -> (r: &'static str)
    ensures
        r@ == spec_color_name(c),
{
    match c {
        Color::Black => "Black",
        Color::Blue => "Blue",
        Color::Cyan => "Cyan",
        Color::DarkGray => "DarkGray",
        Color::Gray => "Gray",
        Color::Green => "Green",
        Color::LightBlue => "LightBlue",
        Color::LightCyan => "LightCyan",
        Color::LightGreen => "LightGreen",
        Color::LightMagenta => "LightMagenta",
        Color::LightRed => "LightRed",
        Color::LightYellow => "LightYellow",
        Color::Magenta => "Magenta",
        Color::Red => "Red",
        Color::Reset => "Reset",
        Color::White => "White",
        Color::Yellow => "Yellow",
        Color::Indexed(_) | Color::Rgb(_, _, _) => "Custom",
    }
}

/// The palette color with the given name; any other name reads as White.
pub open spec fn spec_color_from_name(name: Seq<char>) -> Color {
    if name == spec_color_name(Color::Black) {
        Color::Black
    } else if name == spec_color_name(Color::Blue) {
        Color::Blue
    } else if name == spec_color_name(Color::Cyan) {
        Color::Cyan
    } else if name == spec_color_name(Color::DarkGray) {
        Color::DarkGray
    } else if name == spec_color_name(Color::Gray) {
        Color::Gray
    } else if name == spec_color_name(Color::Green) {
        Color::Green
    } else if name == spec_color_name(Color::LightBlue) {
        Color::LightBlue
    } else if name == spec_color_name(Color::LightCyan) {
        Color::LightCyan
    } else if name == spec_color_name(Color::LightGreen) {
        Color::LightGreen
    } else if name == spec_color_name(Color::LightMagenta) {
        Color::LightMagenta
    } else if name == spec_color_name(Color::LightRed) {
        Color::LightRed
    } else if name == spec_color_name(Color::LightYellow) {
        Color::LightYellow
    } else if name == spec_color_name(Color::Magenta) {
        Color::Magenta
    } else if name == spec_color_name(Color::Red) {
        Color::Red
    } else if name == spec_color_name(Color::Reset) {
        Color::Reset
    } else if name == spec_color_name(Color::White) {
        Color::White
    } else if name == spec_color_name(Color::Yellow) {
        Color::Yellow
    } else {
        Color::White
    }
}

/// The color has a name of its own (it is one of the palette's).
pub open spec fn is_named(c: Color) -> bool {
    !(c is Rgb) && !(c is Indexed)
}

/// Reads a color from its name (see `spec_color_from_name`).
pub fn color_from_name(name: &str) -> (r: Color)
    ensures
        r == spec_color_from_name(name@),
{
    if str_eq(name, "Black") {
        Color::Black
    } else if str_eq(name, "Blue") {
        Color::Blue
    } else if str_eq(name, "Cyan") {
        Color::Cyan
    } else if str_eq(name, "DarkGray") {
        Color::DarkGray
    } else if str_eq(name, "Gray") {
        Color::Gray
    } else if str_eq(name, "Green") {
        Color::Green
    } else if str_eq(name, "LightBlue") {
        Color::LightBlue
    } else if str_eq(name, "LightCyan") {
        Color::LightCyan
    } else if str_eq(name, "LightGreen") {
        Color::LightGreen
    } else if str_eq(name, "LightMagenta") {
        Color::LightMagenta
    } else if str_eq(name, "LightRed") {
        Color::LightRed
    } else if str_eq(name, "LightYellow") {
        Color::LightYellow
    } else if str_eq(name, "Magenta") {
        Color::Magenta
    } else if str_eq(name, "Red") {
        Color::Red
    } else if str_eq(name, "Reset") {
        Color::Reset
    } else if str_eq(name, "White") {
        Color::White
    } else if str_eq(name, "Yellow") {
        Color::Yellow
    } else {
        Color::White
    }
}

/// The length, first and last character of a palette color's name: no two
/// palette colors agree on all three.
spec fn name_signature(c: Color) -> (nat, char, char) {
    match c {
        Color::Black => (5, 'B', 'k'),
        Color::Blue => (4, 'B', 'e'),
        Color::Cyan => (4, 'C', 'n'),
        Color::DarkGray => (8, 'D', 'y'),
        Color::Gray => (4, 'G', 'y'),
        Color::Green => (5, 'G', 'n'),
        Color::LightBlue => (9, 'L', 'e'),
        Color::LightCyan => (9, 'L', 'n'),
        Color::LightGreen => (10, 'L', 'n'),
        Color::LightMagenta => (12, 'L', 'a'),
        Color::LightRed => (8, 'L', 'd'),
        Color::LightYellow => (11, 'L', 'w'),
        Color::Magenta => (7, 'M', 'a'),
        Color::Red => (3, 'R', 'd'),
        Color::Reset => (5, 'R', 't'),
        Color::White => (5, 'W', 'e'),
        Color::Yellow => (6, 'Y', 'w'),
        _ => (0, ' ', ' '),
    }
}

proof fn lemma_name_signature(c: Color)
    requires
        is_named(c),
    ensures
        spec_color_name(c).len() == name_signature(c).0,
        spec_color_name(c)[0] == name_signature(c).1,
        spec_color_name(c)[spec_color_name(c).len() - 1] == name_signature(c).2,
{
    reveal_strlit("Black");
    reveal_strlit("Blue");
    reveal_strlit("Cyan");
    reveal_strlit("DarkGray");
    reveal_strlit("Gray");
    reveal_strlit("Green");
    reveal_strlit("LightBlue");
    reveal_strlit("LightCyan");
    reveal_strlit("LightGreen");
    reveal_strlit("LightMagenta");
    reveal_strlit("LightRed");
    reveal_strlit("LightYellow");
    reveal_strlit("Magenta");
    reveal_strlit("Red");
    reveal_strlit("Reset");
    reveal_strlit("White");
    reveal_strlit("Yellow");
}

/// Reading back the name of a palette color gives the color.
pub proof fn lemma_color_name_round_trip(c: Color)
    requires
        is_named(c),
    ensures
        spec_color_from_name(spec_color_name(c)) == c,
{
    lemma_name_signature(c);
    assert forall|d: Color| is_named(d) && #[trigger] spec_color_name(d) == spec_color_name(c) implies d == c by {
        lemma_name_signature(d);
    }
}

} // verus!
