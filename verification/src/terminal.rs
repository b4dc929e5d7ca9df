//! A cursor over a screen, and the line discipline of writing bytes to it.
//!
//! The cursor names the cell that the next character goes to. After a
//! character was painted in the last column the cursor's column equals the
//! width: a wrap is pending, and the next write resolves it before it does
//! anything else. A newline can leave the cursor's row below the grid; the
//! next character that is painted scrolls the grid up by as many rows as it
//! takes to bring the cursor back into it.
use vstd::prelude::*;
use vstd::string::StringSliceAdditionalSpecFns;
use crate::buffer::lemma_scrolled_by_nothing;
use crate::cell::{Color, CARRIAGE_RETURN, NEWLINE};
use crate::device::{Device, Screen};
use crate::position::{Position, VGA_BUFFER_SIZE, VGA_TEXT_HEIGHT, VGA_TEXT_WIDTH};

verus! {

/// Whether writing `byte` paints a cell: every byte does but the newline and
/// the carriage return.
pub open spec fn paints(byte: u8) -> bool {
    byte != NEWLINE && byte != CARRIAGE_RETURN
}

/// Whether every byte of `bytes` paints a cell.
pub open spec fn all_paint(bytes: Seq<u8>) -> bool {
    forall|i: int| 0 <= i < bytes.len() ==> paints(#[trigger] bytes[i])
}

/// What a terminal holds, as plain mathematical values.
pub struct TerminalState {
    /// Row of the cursor.
    pub row: int,
    /// Column of the cursor.
    pub col: int,
    /// The screen under the cursor.
    pub screen: Screen,
}

impl TerminalState {
    /// Row of the cursor once a pending wrap is resolved.
    pub open spec fn wrapped_row(self) -> int {
        if self.col >= VGA_TEXT_WIDTH {
            self.row + 1
        } else {
            self.row
        }
    }

    /// Column of the cursor once a pending wrap is resolved.
    pub open spec fn wrapped_col(self) -> int {
        if self.col >= VGA_TEXT_WIDTH {
            0
        } else {
            self.col
        }
    }

    /// Number of rows by which painting a character now scrolls the grid:
    /// as many as the cursor, once wrapped, lies below the last row.
    pub open spec fn scroll_lines(self) -> int {
        if self.wrapped_row() >= VGA_TEXT_HEIGHT {
            self.wrapped_row() - VGA_TEXT_HEIGHT + 1
        } else {
            0
        }
    }

    /// Row in which a character painted now lands.
    pub open spec fn paint_row(self) -> int {
        self.wrapped_row() - self.scroll_lines()
    }

    /// Whether `byte` can be written now. The cursor's row is kept in a byte,
    /// so a newline is refused where it would take the row past the largest
    /// byte. Every other byte is accepted everywhere.
    pub open spec fn accepts(self, byte: u8) -> bool {
        byte == NEWLINE ==> self.wrapped_row() < u8::MAX
    }

    /// This state after `byte` was written.
    pub open spec fn write(self, byte: u8) -> TerminalState {
        if byte == NEWLINE {
            TerminalState { row: self.wrapped_row() + 1, col: 0, screen: self.screen }
        } else if byte == CARRIAGE_RETURN {
            TerminalState { row: self.wrapped_row(), col: 0, screen: self.screen }
        } else {
            TerminalState {
                row: self.paint_row(),
                col: self.wrapped_col() + 1,
                screen: self.screen.scrolled(self.scroll_lines()).painted(
                    byte,
                    self.paint_row(),
                    self.wrapped_col(),
                ),
            }
        }
    }

    /// This state after the bytes of `bytes` were written, first to last.
    pub open spec fn write_all(self, bytes: Seq<u8>) -> TerminalState
        decreases bytes.len(),
    {
        if bytes.len() == 0 {
            self
        } else {
            self.write_all(bytes.drop_last()).write(bytes.last())
        }
    }

    /// Number of rows by which the grid is scrolled, all in all, while the
    /// bytes of `bytes` are written.
    pub open spec fn lines_scrolled(self, bytes: Seq<u8>) -> int
        decreases bytes.len(),
    {
        if bytes.len() == 0 {
            0
        } else if paints(bytes.last()) {
            self.lines_scrolled(bytes.drop_last()) + self.write_all(
                bytes.drop_last(),
            ).scroll_lines()
        } else {
            self.lines_scrolled(bytes.drop_last())
        }
    }

    /// Whether the bytes of `bytes` can be written now, first to last: each
    /// of them is accepted in the state that the bytes before it leave.
    pub open spec fn accepts_all(self, bytes: Seq<u8>) -> bool
        decreases bytes.len(),
    {
        bytes.len() == 0 || (self.accepts_all(bytes.drop_last()) && self.write_all(
            bytes.drop_last(),
        ).accepts(bytes.last()))
    }
}

/// Where `bytes` can be written, so can each of its prefixes.
pub proof fn lemma_accepts_prefix(state: TerminalState, bytes: Seq<u8>, count: int)
    requires
        state.accepts_all(bytes),
        0 <= count <= bytes.len(),
    ensures
        state.accepts_all(bytes.take(count)),
    decreases bytes.len(),
{
    if count == bytes.len() {
        assert(bytes.take(count) =~= bytes);
    } else {
        lemma_accepts_prefix(state, bytes.drop_last(), count);
        assert(bytes.drop_last().take(count) =~= bytes.take(count));
    }
}

/// The position that the next character goes to.
struct Cursor {
    position: Position,
}

impl Cursor {
    /// What holds of a cursor between any two writes: its column is at most
    /// the width, and it is past the first column only in a row of the grid.
    #[verifier::type_invariant]
    spec fn in_reach(&self) -> bool {
        &&& self.position.col <= VGA_TEXT_WIDTH
        &&& self.position.col > 0 ==> self.position.row < VGA_TEXT_HEIGHT
    }
}

/// A device and the cursor that says where on it the next character goes.
pub struct Terminal {
    cursor: Cursor,
    device: Device,
}

impl Terminal {
    pub closed spec fn view(&self) -> TerminalState {
        TerminalState {
            row: self.cursor.position.row as int,
            col: self.cursor.position.col as int,
            screen: self.device@,
        }
    }

    /// A terminal's screen always has as many cells as the grid.
    pub proof fn lemma_size(&self)
        ensures
            self@.screen.cells.len() == VGA_BUFFER_SIZE,
    {
        self.device.lemma_size();
    }

    /// A terminal over `device`, the cursor in the top left corner.
    pub fn new(device: Device) -> (terminal: Terminal)
        ensures
            terminal@ == (TerminalState { row: 0, col: 0, screen: device@ }),
    {
        Terminal { cursor: Cursor { position: Position::new(0, 0) }, device: device }
    }

    /// Writes one byte at the cursor. In this order: a pending wrap is
    /// resolved; a newline moves the cursor to the start of the next row and
    /// a carriage return to the start of its own row, and neither paints; for
    /// any other byte the grid is scrolled until the cursor's row lies inside
    /// it, the byte is painted at the cursor in the current colours, and the
    /// cursor moves one column to the right.
    pub fn write_byte(&mut self, byte: u8)
        requires
            old(self)@.accepts(byte),
        ensures
            final(self)@ == old(self)@.write(byte),
            final(self)@.col <= VGA_TEXT_WIDTH,
            paints(byte) ==> final(self)@.row < VGA_TEXT_HEIGHT,
    {
        proof {
            use_type_invariant(&self.cursor);
        }
        if self.cursor.position.col >= self.device.width() {
            self.cursor.position.col = 0;
            self.cursor.position.row += 1;
        }
        if byte == NEWLINE {
            self.cursor.position.col = 0;
            self.cursor.position.row += 1;
            return ;
        } else if byte == CARRIAGE_RETURN {
            self.cursor.position.col = 0;
            return ;
        }
        if self.cursor.position.row >= self.device.height() {
            let scroll_lines: u8 = self.cursor.position.row - self.device.height() + 1;
            self.device.scroll_up(scroll_lines);
            self.cursor.position.row -= scroll_lines;
        } else {
            proof {
                self.device.lemma_size();
                lemma_scrolled_by_nothing(self.device@.cells);
            }
        }
        self.device.write_byte(byte, self.cursor.position);
        self.cursor.position.col += 1;
    }

    /// Whether `byte` can be written now: every byte but a newline in the
    /// last row that a byte can count.
    pub fn accepts(&self, byte: u8) -> (accepted: bool)
        ensures
            accepted == self@.accepts(byte),
    {
        proof {
            use_type_invariant(&self.cursor);
        }
        byte != NEWLINE || self.cursor.position.row < u8::MAX
    }

    /// Writes the bytes of `bytes` at the cursor, first to last.
    pub fn write_bytes(&mut self, bytes: &[u8])
        requires
            old(self)@.accepts_all(bytes@),
        ensures
            final(self)@ == old(self)@.write_all(bytes@),
    {
        let count: usize = bytes.len();
        let mut done: usize = 0;
        while done < count
            invariant
                count == bytes@.len(),
                done <= count,
                old(self)@.accepts_all(bytes@),
                self@ == old(self)@.write_all(bytes@.take(done as int)),
            decreases count - done,
        {
            proof {
                lemma_accepts_prefix(old(self)@, bytes@, done + 1);
                assert(bytes@.take(done + 1).drop_last() =~= bytes@.take(done as int));
            }
            self.write_byte(bytes[done]);
            done += 1;
        }
        assert(bytes@.take(done as int) =~= bytes@);
    }

    /// Writes the bytes of `text` at the cursor, first to last.
    pub fn write_str(&mut self, text: &str)
        requires
            old(self)@.accepts_all(text.spec_bytes()),
        ensures
            final(self)@ == old(self)@.write_all(text.spec_bytes()),
    {
        self.write_bytes(text.as_bytes());
    }

    pub fn set_foreground_color(&mut self, color: Color)
        ensures
            final(self)@ == (TerminalState {
                screen: Screen { foreground: color, ..old(self)@.screen },
                ..old(self)@
            }),
    {
        self.device.set_foreground_color(color);
    }

    pub fn set_background_color(&mut self, color: Color)
        ensures
            final(self)@ == (TerminalState {
                screen: Screen { background: color, ..old(self)@.screen },
                ..old(self)@
            }),
    {
        self.device.set_background_color(color);
    }

    pub fn toggle_bright(&mut self)
        ensures
            final(self)@ == (TerminalState {
                screen: Screen { bright: !old(self)@.screen.bright, ..old(self)@.screen },
                ..old(self)@
            }),
    {
        self.device.toggle_bright();
    }

    /// Paints a space in the current colours into every cell. The cursor
    /// stays where it is.
    pub fn clear_screen(&mut self)
        ensures
            final(self)@ == (TerminalState { screen: old(self)@.screen.cleared(), ..old(self)@ }),
    {
        self.device.clear_screen();
    }

    /// The cursor. Its column is never more than the width, and equals it
    /// only while a wrap is pending; the cursor is past the first column only
    /// in a row of the grid.
    pub fn position(&self) -> (position: Position)
        ensures
            position.row == self@.row,
            position.col == self@.col,
            position.col <= VGA_TEXT_WIDTH,
            position.col > 0 ==> position.row < VGA_TEXT_HEIGHT,
    {
        proof {
            use_type_invariant(&self.cursor);
        }
        self.cursor.position
    }

    /// The device under the cursor.
    pub fn device(&self) -> (device: &Device)
        ensures
            device@ == self@.screen,
    {
        &self.device
    }
}

} // verus!
