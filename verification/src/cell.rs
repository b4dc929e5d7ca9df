//! The sixteen-bit display cell: a character byte below an attribute byte.
//!
//! Attribute byte, from the least significant bit: three bits of foreground
//! colour, one brightness bit, three bits of background colour, and a top bit
//! that is never set.
use vstd::prelude::*;

verus! {

/// The cell that a scroll leaves behind: no character, no attribute.
pub const BLANK_CELL: u16 = 0;

/// The character that clearing the screen paints.
pub const SPACE: u8 = 0x20;

/// The line feed character.
pub const NEWLINE: u8 = 0x0a;

/// The carriage return character.
pub const CARRIAGE_RETURN: u8 = 0x0d;

/// The colours that a cell can show.
#[derive(Copy, Clone, Debug, PartialEq, Eq, Structural)]
pub enum Color {
    Black,
    Blue,
    Green,
    Cyan,
    Red,
    Magenta,
    Brown,
    LightGray,
}

impl Color {
    /// The three-bit index of a colour.
    pub open spec fn index(self) -> int {
        match self {
            Color::Black => 0,
            Color::Blue => 1,
            Color::Green => 2,
            Color::Cyan => 3,
            Color::Red => 4,
            Color::Magenta => 5,
            Color::Brown => 6,
            Color::LightGray => 7,
        }
    }

    /// The colour with a given index; indices above seven fold back onto
    /// light gray.
    pub open spec fn with_index(index: int) -> Color {
        if index == 0 {
            Color::Black
        } else if index == 1 {
            Color::Blue
        } else if index == 2 {
            Color::Green
        } else if index == 3 {
            Color::Cyan
        } else if index == 4 {
            Color::Red
        } else if index == 5 {
            Color::Magenta
        } else if index == 6 {
            Color::Brown
        } else {
            Color::LightGray
        }
    }

    /// The three-bit index of this colour.
    pub fn code(self) -> (code: u8)
        ensures
            code == self.index(),
            code < 8,
    {
        match self {
            Color::Black => 0,
            Color::Blue => 1,
            Color::Green => 2,
            Color::Cyan => 3,
            Color::Red => 4,
            Color::Magenta => 5,
            Color::Brown => 6,
            Color::LightGray => 7,
        }
    }

    /// The colour whose index is `code`, if `code` is below eight.
    pub fn from_code(code: u8) -> (color: Option<Color>)
        ensures
            code < 8 ==> color == Some(Color::with_index(code as int)),
            code >= 8 ==> color is None,
    {
        match code {
            0 => Some(Color::Black),
            1 => Some(Color::Blue),
            2 => Some(Color::Green),
            3 => Some(Color::Cyan),
            4 => Some(Color::Red),
            5 => Some(Color::Magenta),
            6 => Some(Color::Brown),
            7 => Some(Color::LightGray),
            _ => None,
        }
    }
}

/// The attribute byte for a foreground, a background and a brightness.
pub open spec fn attribute(foreground: Color, background: Color, bright: bool) -> int {
    background.index() * 16 + (if bright { 8int } else { 0int }) + foreground.index()
}

/// The cell that shows `byte` under the attribute byte `attribute`.
pub open spec fn cell(attribute: int, byte: u8) -> u16 {
    (attribute * 256 + byte) as u16
}

/// The cell that shows `byte` in the given colours.
pub open spec fn colored_cell(foreground: Color, background: Color, bright: bool, byte: u8) -> u16 {
    cell(attribute(foreground, background, bright), byte)
}

/// The character byte of a cell: its low eight bits.
pub open spec fn character_of(cell: u16) -> u8 {
    (cell % 256) as u8
}

/// The attribute byte of a cell: its high eight bits.
pub open spec fn attribute_of(cell: u16) -> u8 {
    (cell / 256) as u8
}

/// The foreground colour that an attribute byte names.
pub open spec fn foreground_of(attribute: u8) -> Color {
    Color::with_index(attribute as int % 8)
}

/// The background colour that an attribute byte names.
pub open spec fn background_of(attribute: u8) -> Color {
    Color::with_index((attribute as int / 16) % 8)
}

/// Whether an attribute byte has its brightness bit set.
pub open spec fn brightness_of(attribute: u8) -> bool {
    (attribute as int / 8) % 2 == 1
}

/// A colour is found again from its index.
pub proof fn lemma_color_index(color: Color)
    ensures
        0 <= color.index() < 8,
        Color::with_index(color.index()) == color,
{
}

/// An attribute byte gives back the colours and the brightness that it was
/// packed from, and its top bit is clear.
pub proof fn lemma_attribute_round_trip(foreground: Color, background: Color, bright: bool)
    ensures
        0 <= attribute(foreground, background, bright) < 128,
        foreground_of(attribute(foreground, background, bright) as u8) == foreground,
        background_of(attribute(foreground, background, bright) as u8) == background,
        brightness_of(attribute(foreground, background, bright) as u8) == bright,
{
}

/// A cell gives back the attribute byte and the character byte that it was
/// packed from.
pub proof fn lemma_cell_round_trip(packed: u8, byte: u8)
    ensures
        attribute_of(cell(packed as int, byte)) == packed,
        character_of(cell(packed as int, byte)) == byte,
        cell(packed as int, byte) == packed * 256 + byte,
{
}

/// A cell painted in given colours gives back the character, the colours and
/// the brightness.
pub proof fn lemma_colored_cell_round_trip(
    foreground: Color,
    background: Color,
    bright: bool,
    byte: u8,
)
    ensures
        character_of(colored_cell(foreground, background, bright, byte)) == byte,
        foreground_of(attribute_of(colored_cell(foreground, background, bright, byte)))
            == foreground,
        background_of(attribute_of(colored_cell(foreground, background, bright, byte)))
            == background,
        brightness_of(attribute_of(colored_cell(foreground, background, bright, byte))) == bright,
{
    lemma_attribute_round_trip(foreground, background, bright);
    lemma_cell_round_trip(attribute(foreground, background, bright) as u8, byte);
}

/// Packs colours and brightness into an attribute byte.
pub fn encode_attribute(foreground: Color, background: Color, bright: bool) -> (packed: u8)
    ensures
        packed == attribute(foreground, background, bright),
        packed < 128,
{
    let brightness_bit: u8 = if bright { 1 } else { 0 };
    let bg: u8 = background.code();
    let fg: u8 = foreground.code();
    let packed: u8 = (bg << 4) | (brightness_bit << 3) | fg;
    assert(packed == bg * 16 + brightness_bit * 8 + fg) by (bit_vector)
        requires
            bg < 8,
            fg < 8,
            brightness_bit < 2,
            packed == (bg << 4) | (brightness_bit << 3) | fg,
    ;
    packed
}

/// Packs an attribute byte and a character byte into a cell.
pub fn encode_cell(packed: u8, byte: u8) -> (encoded: u16)
    ensures
        encoded == cell(packed as int, byte),
        encoded == packed * 256 + byte,
{
    let encoded: u16 = ((packed as u16) << 8) | (byte as u16);
    assert(encoded == packed * 256 + byte) by (bit_vector)
        requires
            encoded == ((packed as u16) << 8) | (byte as u16),
    ;
    encoded
}

/// The character byte of a cell.
pub fn decode_character(cell: u16) -> (byte: u8)
    ensures
        byte == character_of(cell),
{
    let low: u16 = cell & 0xff;
    assert(low == cell % 256) by (bit_vector)
        requires
            low == cell & 0xff,
    ;
    low as u8
}

/// The attribute byte of a cell.
pub fn decode_attribute(cell: u16) -> (packed: u8)
    ensures
        packed == attribute_of(cell),
{
    let high: u16 = cell >> 8;
    assert(high == cell / 256) by (bit_vector)
        requires
            high == cell >> 8,
    ;
    high as u8
}

/// The foreground colour that an attribute byte names.
pub fn decode_foreground(packed: u8) -> (color: Color)
    ensures
        color == foreground_of(packed),
{
    let code: u8 = packed & 0x07;
    assert(code == packed % 8) by (bit_vector)
        requires
            code == packed & 0x07,
    ;
    match Color::from_code(code) {
        Some(color) => color,
        None => Color::LightGray,
    }
}

/// The background colour that an attribute byte names.
pub fn decode_background(packed: u8) -> (color: Color)
    ensures
        color == background_of(packed),
{
    let code: u8 = (packed >> 4) & 0x07;
    assert(code == (packed / 16) % 8) by (bit_vector)
        requires
            code == (packed >> 4) & 0x07,
    ;
    match Color::from_code(code) {
        Some(color) => color,
        None => Color::LightGray,
    }
}

/// Whether an attribute byte has its brightness bit set.
pub fn decode_brightness(packed: u8) -> (bright: bool)
    ensures
        bright == brightness_of(packed),
{
    let bit: u8 = (packed >> 3) & 0x01;
    assert(bit == (packed / 8) % 2) by (bit_vector)
        requires
            bit == (packed >> 3) & 0x01,
    ;
    bit == 1
}

} // verus!
