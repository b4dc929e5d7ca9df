//! Coordinates on the character grid.
use vstd::prelude::*;

verus! {

/// Number of rows of the grid.
pub const VGA_TEXT_HEIGHT: u8 = 25;

/// Number of columns of the grid.
pub const VGA_TEXT_WIDTH: u8 = 80;

/// Number of cells of the grid.
pub const VGA_BUFFER_SIZE: usize = 2000;

/// A row and a column. Any pair of bytes is a `Position`; only those inside
/// the grid are valid.
#[derive(Copy, Clone, Debug, PartialEq, Eq, Structural)]
pub struct Position {
    pub col: u8,
    pub row: u8,
}

impl Position {
    /// The row-major offset of this position.
    pub open spec fn offset(self) -> int {
        self.row * VGA_TEXT_WIDTH + self.col
    }

    /// Whether this position lies inside the grid.
    pub open spec fn valid(self) -> bool {
        self.row < VGA_TEXT_HEIGHT && self.col < VGA_TEXT_WIDTH
    }

    /// The row-major offset of this position, in cells from the top left.
    pub fn as_offset(self) -> (offset: isize)
        ensures
            offset == self.offset(),
            offset == self.row * 80 + self.col,
    {
        (self.row as isize) * (VGA_TEXT_WIDTH as isize) + (self.col as isize)
    }

    /// Whether this position lies inside the grid.
    #[verifier::when_used_as_spec(valid)]
    pub fn is_valid(self) -> (valid: bool)
        ensures
            valid == self.valid(),
            valid == (self.row < 25 && self.col < 80),
    {
        self.row < VGA_TEXT_HEIGHT && self.col < VGA_TEXT_WIDTH
    }

    pub fn new(row: u8, col: u8) -> (position: Position)
        ensures
            position.row == row,
            position.col == col,
    {
        Position { col: col, row: row }
    }
}

/// A valid position has its offset inside the grid.
pub proof fn lemma_offset_in_grid(position: Position)
    requires
        position.valid(),
    ensures
        0 <= position.offset() < VGA_BUFFER_SIZE,
{
}

/// Two valid positions with the same offset are the same position.
pub proof fn lemma_offset_injective(first: Position, second: Position)
    requires
        first.valid(),
        second.valid(),
        first.offset() == second.offset(),
    ensures
        first == second,
{
}

} // verus!
