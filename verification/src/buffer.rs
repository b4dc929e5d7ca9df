//! The grid of cells that a screen shows.
use vstd::prelude::*;
use crate::cell::BLANK_CELL;
use crate::position::{VGA_BUFFER_SIZE, VGA_TEXT_HEIGHT, VGA_TEXT_WIDTH};

verus! {

/// Address at which the display hardware maps its text buffer.
pub const VGA_TEXT_BUFFER: usize = 0xb8000;

/// The grid in which every cell is blank.
pub open spec fn blank_grid() -> Seq<u16> {
    Seq::new(VGA_BUFFER_SIZE as nat, |i: int| BLANK_CELL)
}

/// The grid `cells` moved up by `lines` rows: each cell takes the content of
/// the cell `lines` rows below it, and cells with nothing below them at that
/// distance become blank.
pub open spec fn scrolled(cells: Seq<u16>, lines: int) -> Seq<u16> {
    Seq::new(
        VGA_BUFFER_SIZE as nat,
        |i: int|
            if i + lines * VGA_TEXT_WIDTH < VGA_BUFFER_SIZE {
                cells[i + lines * VGA_TEXT_WIDTH]
            } else {
                BLANK_CELL
            },
    )
}

/// Moving a grid up by no rows leaves it as it is.
pub proof fn lemma_scrolled_by_nothing(cells: Seq<u16>)
    requires
        cells.len() == VGA_BUFFER_SIZE,
    ensures
        scrolled(cells, 0) == cells,
{
    assert(scrolled(cells, 0) =~= cells);
}

/// Moving a grid up by a full screen of rows or more leaves it blank.
pub proof fn lemma_scrolled_by_everything(cells: Seq<u16>, lines: int)
    requires
        lines >= VGA_TEXT_HEIGHT,
    ensures
        scrolled(cells, lines) == blank_grid(),
{
    assert(scrolled(cells, lines) =~= blank_grid());
}

/// What moving a grid up by `lines` rows does to the cell in row `row` and
/// column `col`: a row that has a row `lines` below it takes that row's cell
/// of the same column, unchanged, and each of the last `lines` rows becomes
/// blank.
pub proof fn lemma_scrolled_cell(cells: Seq<u16>, lines: int, row: int, col: int)
    requires
        cells.len() == VGA_BUFFER_SIZE,
        0 <= lines,
        0 <= row < VGA_TEXT_HEIGHT,
        0 <= col < VGA_TEXT_WIDTH,
    ensures
        row + lines < VGA_TEXT_HEIGHT ==> scrolled(cells, lines)[row * VGA_TEXT_WIDTH + col]
            == cells[(row + lines) * VGA_TEXT_WIDTH + col],
        row + lines >= VGA_TEXT_HEIGHT ==> scrolled(cells, lines)[row * VGA_TEXT_WIDTH + col]
            == BLANK_CELL,
{
    assert((row + lines) * 80 == row * 80 + lines * 80) by (nonlinear_arith);
}

/// `<[u16]>::copy_within`: the cells from `start` up to `end` are copied to
/// the cells that begin at `dest`, as if through a temporary, and every other
/// cell keeps its content. The preconditions are the ones under which the
/// standard library function does not panic.
#[verifier::external_body]
fn copy_cells_within(cells: &mut [u16], start: usize, end: usize, dest: usize)
    requires
        start <= end <= old(cells)@.len(),
        dest + (end - start) <= old(cells)@.len(),
    ensures
        final(cells)@ == Seq::new(
            old(cells)@.len(),
            |i: int|
                if dest <= i < dest + (end - start) {
                    old(cells)@[i - dest + start]
                } else {
                    old(cells)@[i]
                },
        ),
{
    cells.copy_within(start..end, dest);
}

/// `<[u16]>::fill`: every cell becomes `value`.
#[verifier::external_body]
fn fill_cells(cells: &mut [u16], value: u16)
    ensures
        final(cells)@ == Seq::new(old(cells)@.len(), |i: int| value),
{
    cells.fill(value);
}

/// A grid of 80 by 25 cells in row-major order, together with the address of
/// the memory region that the grid stands for. The region is either the one
/// that the display hardware maps or one that the owner of the buffer set
/// aside.
pub struct Buffer {
    cells: [u16; VGA_BUFFER_SIZE],
    address: usize,
}

impl Buffer {
    /// The cells, row after row.
    pub closed spec fn view(&self) -> Seq<u16> {
        self.cells@
    }

    /// The address of the region that this buffer stands for.
    pub closed spec fn region(&self) -> usize {
        self.address
    }

    /// A buffer always has as many cells as the grid.
    pub proof fn lemma_size(&self)
        ensures
            self@.len() == VGA_BUFFER_SIZE,
    {
    }

    /// A buffer over the region at `address`, every cell blank.
    pub fn new(address: usize) -> (buffer: Buffer)
        ensures
            buffer@ == blank_grid(),
            buffer.region() == address,
    {
        Buffer { cells: [BLANK_CELL;VGA_BUFFER_SIZE], address: address }
    }

    /// A buffer over the region that the display hardware maps, every cell
    /// blank.
    pub fn new_physical_vga_buffer() -> (buffer: Buffer)
        ensures
            buffer@ == blank_grid(),
            buffer.region() == VGA_TEXT_BUFFER,
    {
        Buffer { cells: [BLANK_CELL;VGA_BUFFER_SIZE], address: VGA_TEXT_BUFFER }
    }

    /// Whether this buffer stands for the region that the display hardware
    /// maps.
    pub fn is_physical_vga_buffer(&self) -> (physical: bool)
        ensures
            physical == (self.region() == VGA_TEXT_BUFFER),
    {
        self.address == VGA_TEXT_BUFFER
    }

    /// The address of the region that this buffer stands for.
    pub fn address(&self) -> (address: usize)
        ensures
            address == self.region(),
    {
        self.address
    }

    /// All cells, row after row.
    pub fn cells(&self) -> (cells: &[u16; VGA_BUFFER_SIZE])
        ensures
            cells@ == self@,
    {
        &self.cells
    }

    /// The cell at `offset`.
    pub fn load(&self, offset: usize) -> (cell: u16)
        requires
            offset < VGA_BUFFER_SIZE,
        ensures
            cell == self@[offset as int],
    {
        self.cells[offset]
    }

    /// Replaces the cell at `offset`.
    pub fn store(&mut self, offset: usize, cell: u16)
        requires
            offset < VGA_BUFFER_SIZE,
        ensures
            final(self)@ == old(self)@.update(offset as int, cell),
            final(self).region() == old(self).region(),
    {
        self.cells[offset] = cell;
    }

    /// Moves the whole grid up by `lines` rows. The top `lines` rows are
    /// lost, the rows below them move up, and the bottom `lines` rows become
    /// blank. With no lines nothing changes; with a full screen of lines or
    /// more every cell becomes blank.
    pub fn scroll_up(&mut self, lines: u8)
        ensures
            final(self)@ == scrolled(old(self)@, lines as int),
            lines == 0 ==> final(self)@ == old(self)@,
            lines >= VGA_TEXT_HEIGHT ==> final(self)@ == blank_grid(),
            final(self).region() == old(self).region(),
    {
        let front_offset: usize = if lines >= VGA_TEXT_HEIGHT {
            VGA_BUFFER_SIZE
        } else {
            (lines as usize) * (VGA_TEXT_WIDTH as usize)
        };
        let back_offset: usize = VGA_BUFFER_SIZE - front_offset;
        let cells: &mut [u16] = &mut self.cells;
        copy_cells_within(cells, front_offset, VGA_BUFFER_SIZE, 0);
        let (_, freed) = cells.split_at_mut(back_offset);
        fill_cells(freed, BLANK_CELL);
        proof {
            old(self).lemma_size();
            if lines == 0 {
                lemma_scrolled_by_nothing(old(self)@);
            }
            if lines >= VGA_TEXT_HEIGHT {
                lemma_scrolled_by_everything(old(self)@, lines as int);
            }
        }
    }
}

} // verus!
