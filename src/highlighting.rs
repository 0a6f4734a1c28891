use vstd::prelude::*;
use crate::text::decimal;

verus! {

/// The class of a character for colouring.
#[derive(Debug, Clone, Copy, PartialEq, Eq, Structural)]
pub enum Type {
    Plain,
    Number,
    SearchMatch,
    String,
    Character,
    Comment,
}

/// A true colour, one byte per channel.
#[derive(Debug, Clone, Copy, PartialEq, Eq, Structural)]
pub struct Rgb {
    pub r: u8,
    pub g: u8,
    pub b: u8,
}

/// The start of a control sequence.
pub open spec fn csi() -> Seq<char> {
    seq!['\x1b', '[']
}

/// The sequence that selects `c` as the colour named by `selector` (`3` for the
/// foreground, `4` for the background).
pub open spec fn rgb_sequence(selector: char, c: Rgb) -> Seq<char> {
    csi() + seq![selector, '8', ';', '2', ';'] + decimal(c.r as nat) + seq![';']
        + decimal(c.g as nat) + seq![';'] + decimal(c.b as nat) + seq!['m']
}

/// The sequence that restores the default colour named by `selector`.
pub open spec fn reset_sequence(selector: char) -> Seq<char> {
    csi() + seq![selector, '9', 'm']
}

/// Relies on termion's `Rgb::fg_string`: `ESC [ 38;2;r;g;b m`, each channel in decimal.
#[verifier::external_body]
fn fg_rgb_string(c: Rgb) -> (r: String)
    ensures
        r@ == rgb_sequence('3', c),
{
    termion::color::Rgb(c.r, c.g, c.b).fg_string()
}

/// Relies on termion's `Rgb::bg_string`: `ESC [ 48;2;r;g;b m`, each channel in decimal.
#[verifier::external_body]
fn bg_rgb_string(c: Rgb) -> (r: String)
    ensures
        r@ == rgb_sequence('4', c),
{
    termion::color::Rgb(c.r, c.g, c.b).bg_string()
}

/// Relies on termion's `Reset::fg_str`: `ESC [ 39m`.
#[verifier::external_body]
fn fg_reset_string() -> (r: String)
    ensures
        r@ == reset_sequence('3'),
{
    termion::color::Reset.fg_str().to_string()
}

/// Relies on termion's `Reset::bg_str`: `ESC [ 49m`.
#[verifier::external_body]
fn bg_reset_string() -> (r: String)
    ensures
        r@ == reset_sequence('4'),
{
    termion::color::Reset.bg_str().to_string()
}

impl Type {
    /// The background colour of the class, if it has one.
    pub open spec fn bg_spec(self) -> Option<Rgb> {
        match self {
            Type::SearchMatch => Some(Rgb { r: 255, g: 255, b: 0 }),
            _ => None,
        }
    }

    /// The foreground colour of the class, if it has one.
    pub open spec fn fg_spec(self) -> Option<Rgb> {
        match self {
            Type::Plain => None,
            Type::Character => Some(Rgb { r: 255, g: 234, b: 96 }),
            Type::Comment => Some(Rgb { r: 124, g: 124, b: 124 }),
            Type::String => Some(Rgb { r: 211, g: 54, b: 130 }),
            Type::Number => Some(Rgb { r: 232, g: 165, b: 165 }),
            Type::SearchMatch => Some(Rgb { r: 0, g: 0, b: 0 }),
        }
    }

    /// The control sequence that switches the terminal to the colours of the class:
    /// background first, then foreground, each reset where the class has none.
    pub open spec fn escape(self) -> Seq<char> {
        (match self.bg_spec() {
            None => reset_sequence('4'),
            Some(c) => rgb_sequence('4', c),
        }) + (match self.fg_spec() {
            None => reset_sequence('3'),
            Some(c) => rgb_sequence('3', c),
        })
    }

    pub fn to_bg_color(&self) -> (r: Option<Rgb>)
        ensures
            r == self.bg_spec(),
    {
        match self {
            Type::SearchMatch => Some(Rgb { r: 255, g: 255, b: 0 }),
            _ => None,
        }
    }

    pub fn to_fg_color(&self) -> (r: Option<Rgb>)
        ensures
            r == self.fg_spec(),
    {
        match self {
            Type::Plain => None,
            Type::Character => Some(Rgb { r: 255, g: 234, b: 96 }),
            Type::Comment => Some(Rgb { r: 124, g: 124, b: 124 }),
            Type::String => Some(Rgb { r: 211, g: 54, b: 130 }),
            Type::Number => Some(Rgb { r: 232, g: 165, b: 165 }),
            Type::SearchMatch => Some(Rgb { r: 0, g: 0, b: 0 }),
        }
    }

    /// The control sequence of `escape`, as a string.
    pub fn to_string(&self) -> (r: String)
        ensures
            r@ == self.escape(),
    {
        let mut s = match self.to_bg_color() {
            None => bg_reset_string(),
            Some(c) => bg_rgb_string(c),
        };
        let fg = match self.to_fg_color() {
            None => fg_reset_string(),
            Some(c) => fg_rgb_string(c),
        };
        s.append(fg.as_str());
        s
    }
}

} // verus!
