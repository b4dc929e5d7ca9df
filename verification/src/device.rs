//! A screen: a grid of cells and the colours in which the next cell is
//! painted.
use vstd::prelude::*;
use crate::buffer::{scrolled, Buffer, VGA_TEXT_BUFFER};
use crate::cell::{colored_cell, encode_attribute, encode_cell, Color, SPACE};
use crate::position::{Position, VGA_BUFFER_SIZE, VGA_TEXT_HEIGHT, VGA_TEXT_WIDTH};

verus! {

/// What a device holds, as plain mathematical values.
pub struct Screen {
    /// The cells, row after row.
    pub cells: Seq<u16>,
    /// Colour of the characters painted from now on.
    pub foreground: Color,
    /// Colour behind the characters painted from now on.
    pub background: Color,
    /// Whether the characters painted from now on are bright.
    pub bright: bool,
    /// Address of the memory region that the cells stand for.
    pub region: usize,
}

impl Screen {
    /// The cell that the current colours give to `byte`.
    pub open spec fn cell_for(self, byte: u8) -> u16 {
        colored_cell(self.foreground, self.background, self.bright, byte)
    }

    /// The cell in row `row` and column `col`.
    pub open spec fn cell_at(self, row: int, col: int) -> u16 {
        self.cells[row * VGA_TEXT_WIDTH + col]
    }

    /// This screen after `byte` was painted in row `row` and column `col`
    /// with the current colours.
    pub open spec fn painted(self, byte: u8, row: int, col: int) -> Screen {
        Screen { cells: self.cells.update(row * VGA_TEXT_WIDTH + col, self.cell_for(byte)), ..self }
    }

    /// This screen with a space in the current colours in every cell.
    pub open spec fn cleared(self) -> Screen {
        Screen { cells: Seq::new(VGA_BUFFER_SIZE as nat, |i: int| self.cell_for(SPACE)), ..self }
    }

    /// This screen moved up by `lines` rows.
    pub open spec fn scrolled(self, lines: int) -> Screen {
        Screen { cells: scrolled(self.cells, lines), ..self }
    }
}

/// A buffer and the colours in which the next cell is painted. Changing a
/// colour or the brightness changes no cell: it shows in the cells painted
/// afterwards.
pub struct Device {
    bg_color: Color,
    fg_color: Color,
    is_bright: bool,
    buffer: Buffer,
}

impl Device {
    pub closed spec fn view(&self) -> Screen {
        Screen {
            cells: self.buffer@,
            foreground: self.fg_color,
            background: self.bg_color,
            bright: self.is_bright,
            region: self.buffer.region(),
        }
    }

    /// A device always has as many cells as the grid.
    pub proof fn lemma_size(&self)
        ensures
            self@.cells.len() == VGA_BUFFER_SIZE,
    {
        self.buffer.lemma_size();
    }

    /// A device over the region that the display hardware maps: every cell
    /// blank, bright light gray on black.
    pub fn new_actual_vga_device() -> (device: Device)
        ensures
            device@ == (Screen {
                cells: crate::buffer::blank_grid(),
                foreground: Color::LightGray,
                background: Color::Black,
                bright: true,
                region: VGA_TEXT_BUFFER,
            }),
    {
        Device {
            bg_color: Color::Black,
            fg_color: Color::LightGray,
            is_bright: true,
            buffer: Buffer::new_physical_vga_buffer(),
        }
    }

    /// A device over the region at `address`: every cell blank, bright light
    /// gray on black.
    pub fn new(address: usize) -> (device: Device)
        ensures
            device@ == (Screen {
                cells: crate::buffer::blank_grid(),
                foreground: Color::LightGray,
                background: Color::Black,
                bright: true,
                region: address,
            }),
    {
        Device {
            bg_color: Color::Black,
            fg_color: Color::LightGray,
            is_bright: true,
            buffer: Buffer::new(address),
        }
    }

    /// Whether this device paints the region that the display hardware maps.
    pub fn is_actual_vga_device(&self) -> (actual: bool)
        ensures
            actual == (self@.region == VGA_TEXT_BUFFER),
    {
        self.buffer.is_physical_vga_buffer()
    }

    pub fn set_background_color(&mut self, color: Color)
        ensures
            final(self)@ == (Screen { background: color, ..old(self)@ }),
    {
        self.bg_color = color;
    }

    pub fn set_foreground_color(&mut self, color: Color)
        ensures
            final(self)@ == (Screen { foreground: color, ..old(self)@ }),
    {
        self.fg_color = color;
    }

    pub fn toggle_bright(&mut self)
        ensures
            final(self)@ == (Screen { bright: !old(self)@.bright, ..old(self)@ }),
    {
        self.is_bright = !self.is_bright;
    }

    /// Paints `byte` at `position` in the current colours.
    pub fn write_byte(&mut self, byte: u8, position: Position)
        requires
            position.valid(),
        ensures
            final(self)@ == old(self)@.painted(byte, position.row as int, position.col as int),
    {
        self.write_byte_unchecked(byte, position);
    }

    pub fn height(&self) -> (height: u8)
        ensures
            height == VGA_TEXT_HEIGHT,
    {
        VGA_TEXT_HEIGHT
    }

    pub fn width(&self) -> (width: u8)
        ensures
            width == VGA_TEXT_WIDTH,
    {
        VGA_TEXT_WIDTH
    }

    /// Paints `byte` at `position` in the current colours, without testing
    /// the position first.
    pub fn write_byte_unchecked(&mut self, byte: u8, position: Position)
        requires
            position.valid(),
        ensures
            final(self)@ == old(self)@.painted(byte, position.row as int, position.col as int),
    {
        let offset: isize = position.as_offset();
        let color_byte: u8 = encode_attribute(self.fg_color, self.bg_color, self.is_bright);
        self.buffer.store(offset as usize, encode_cell(color_byte, byte));
    }

    /// Paints a space in the current colours into every cell.
    pub fn clear_screen(&mut self)
        ensures
            final(self)@ == old(self)@.cleared(),
    {
        proof {
            self.lemma_size();
        }
        for row in 0..VGA_TEXT_HEIGHT
            invariant
                self@.cells.len() == VGA_BUFFER_SIZE,
                self@.foreground == old(self)@.foreground,
                self@.background == old(self)@.background,
                self@.bright == old(self)@.bright,
                self@.region == old(self)@.region,
                forall|i: int| 0 <= i < row * 80 ==> self@.cells[i] == old(self)@.cell_for(SPACE),
        {
            for col in 0..VGA_TEXT_WIDTH
                invariant
                    row < VGA_TEXT_HEIGHT,
                    self@.cells.len() == VGA_BUFFER_SIZE,
                    self@.foreground == old(self)@.foreground,
                    self@.background == old(self)@.background,
                    self@.bright == old(self)@.bright,
                    self@.region == old(self)@.region,
                    forall|i: int|
                        0 <= i < row * 80 + col ==> self@.cells[i] == old(self)@.cell_for(SPACE),
            {
                self.write_byte(SPACE, Position::new(row, col));
            }
        }
        assert(self@.cells =~= old(self)@.cleared().cells);
    }

    /// Moves the whole grid up by `lines` rows and blanks the rows that come
    /// free at the bottom. The colours play no part: the freed cells are
    /// blank, not spaces in the current colours.
    pub fn scroll_up(&mut self, lines: u8)
        ensures
            final(self)@ == old(self)@.scrolled(lines as int),
            lines == 0 ==> final(self)@ == old(self)@,
    {
        self.buffer.scroll_up(lines);
    }

    /// The cell at `position`.
    pub fn cell_at(&self, position: Position) -> (cell: u16)
        requires
            position.valid(),
        ensures
            cell == self@.cell_at(position.row as int, position.col as int),
    {
        let offset: isize = position.as_offset();
        self.buffer.load(offset as usize)
    }

    /// All cells, row after row.
    pub fn cells(&self) -> (cells: &[u16; VGA_BUFFER_SIZE])
        ensures
            cells@ == self@.cells,
    {
        self.buffer.cells()
    }

    /// Address of the memory region that the cells stand for.
    pub fn address(&self) -> (address: usize)
        ensures
            address == self@.region,
    {
        self.buffer.address()
    }

    pub fn foreground_color(&self) -> (color: Color)
        ensures
            color == self@.foreground,
    {
        self.fg_color
    }

    pub fn background_color(&self) -> (color: Color)
        ensures
            color == self@.background,
    {
        self.bg_color
    }

    pub fn is_bright(&self) -> (bright: bool)
        ensures
            bright == self@.bright,
    {
        self.is_bright
    }
}

} // verus!
