//! What the line discipline guarantees, proved over the terminal's state.
use vstd::prelude::*;
use crate::buffer::lemma_scrolled_by_nothing;
use crate::cell::{BLANK_CELL, CARRIAGE_RETURN, NEWLINE};
use crate::device::Screen;
use crate::position::{VGA_BUFFER_SIZE, VGA_TEXT_HEIGHT, VGA_TEXT_WIDTH};
use crate::terminal::{all_paint, paints, TerminalState};

verus! {

/// A newline never paints a cell. It always puts the cursor into the first
/// column and moves it down: by one row, and by one more where a wrap was
/// pending.
pub proof fn lemma_newline(state: TerminalState)
    ensures
        state.write(NEWLINE).screen == state.screen,
        state.write(NEWLINE).col == 0,
        state.write(NEWLINE).row == state.wrapped_row() + 1,
        state.col < VGA_TEXT_WIDTH ==> state.write(NEWLINE).row == state.row + 1,
        state.col >= VGA_TEXT_WIDTH ==> state.write(NEWLINE).row == state.row + 2,
{
}

/// A carriage return never paints a cell. It puts the cursor into the first
/// column of the row that it is in once a pending wrap is resolved.
pub proof fn lemma_carriage_return(state: TerminalState)
    ensures
        state.write(CARRIAGE_RETURN).screen == state.screen,
        state.write(CARRIAGE_RETURN).col == 0,
        state.write(CARRIAGE_RETURN).row == state.wrapped_row(),
{
}

/// Where no wrap is pending, a carriage return leaves the cursor's row as it
/// is.
pub proof fn lemma_carriage_return_keeps_row(state: TerminalState)
    requires
        state.col < VGA_TEXT_WIDTH,
    ensures
        state.write(CARRIAGE_RETURN).row == state.row,
{
}

/// A byte that paints leaves the cursor in a row of the grid and at most one
/// column past the last; the cell that it painted is the one to the left of
/// the cursor, and it shows the byte in the colours of the moment.
pub proof fn lemma_paint_lands_in_grid(state: TerminalState, byte: u8)
    requires
        paints(byte),
        0 <= state.row,
        0 <= state.col,
        state.screen.cells.len() == VGA_BUFFER_SIZE,
    ensures
        0 <= state.write(byte).row < VGA_TEXT_HEIGHT,
        1 <= state.write(byte).col <= VGA_TEXT_WIDTH,
        state.write(byte).screen.cell_at(state.write(byte).row, state.write(byte).col - 1)
            == state.screen.cell_for(byte),
        state.write(byte).screen.cells.len() == VGA_BUFFER_SIZE,
{
}

/// A byte painted in the last column leaves a wrap pending; the next byte
/// that paints goes to the first column of the row below, after a scroll by
/// one row where there is no row below, and leaves the cell of the byte
/// before it untouched.
pub proof fn lemma_wrap_after_last_column(state: TerminalState, first: u8, second: u8)
    requires
        paints(first),
        paints(second),
        state.col == VGA_TEXT_WIDTH - 1,
        0 <= state.row < VGA_TEXT_HEIGHT,
        state.screen.cells.len() == VGA_BUFFER_SIZE,
    ensures
        ({
            let middle = state.write(first);
            let end = middle.write(second);
            let landing = if state.row + 1 < VGA_TEXT_HEIGHT {
                state.row + 1
            } else {
                VGA_TEXT_HEIGHT - 1
            };
            &&& middle.row == state.row
            &&& middle.col == VGA_TEXT_WIDTH
            &&& middle.screen.cell_at(state.row, VGA_TEXT_WIDTH - 1) == state.screen.cell_for(first)
            &&& middle.scroll_lines() == (if state.row + 1 < VGA_TEXT_HEIGHT {
                0int
            } else {
                1int
            })
            &&& end.row == landing
            &&& end.col == 1
            &&& end.screen.cell_at(landing, 0) == state.screen.cell_for(second)
            &&& end.screen.cell_at(landing - 1, VGA_TEXT_WIDTH - 1) == state.screen.cell_for(first)
        }),
{
    lemma_scrolled_by_nothing(state.screen.cells);
    lemma_scrolled_by_nothing(state.write(first).screen.cells);
}

/// The largest row that the cursor, once wrapped, can be in after one more
/// byte is one more than this.
pub open spec fn row_bound(state: TerminalState) -> int {
    if state.wrapped_row() >= VGA_TEXT_HEIGHT - 1 {
        state.wrapped_row()
    } else {
        VGA_TEXT_HEIGHT - 1
    }
}

/// A text is accepted wherever the cursor's row has room for one newline per
/// byte.
pub proof fn lemma_accepts_with_room(state: TerminalState, bytes: Seq<u8>)
    requires
        row_bound(state) + bytes.len() <= u8::MAX,
    ensures
        state.accepts_all(bytes),
        row_bound(state.write_all(bytes)) <= row_bound(state) + bytes.len(),
    decreases bytes.len(),
{
    if bytes.len() > 0 {
        lemma_accepts_with_room(state, bytes.drop_last());
    }
}

/// Writing text in two parts is writing it in one.
pub proof fn lemma_write_all_concat(state: TerminalState, head: Seq<u8>, tail: Seq<u8>)
    ensures
        state.write_all(head + tail) == state.write_all(head).write_all(tail),
        state.accepts_all(head + tail) <==> state.accepts_all(head) && state.write_all(
            head,
        ).accepts_all(tail),
        state.lines_scrolled(head + tail) == state.lines_scrolled(head) + state.write_all(
            head,
        ).lines_scrolled(tail),
    decreases tail.len(),
{
    if tail.len() == 0 {
        assert(head + tail =~= head);
    } else {
        lemma_write_all_concat(state, head, tail.drop_last());
        assert((head + tail).drop_last() =~= head + tail.drop_last());
        assert((head + tail).last() == tail.last());
    }
}

/// Bytes that paint, written from the top left corner and no more than the
/// grid has cells, fill the grid in row-major order without a scroll: the
/// cursor enters a new row with every eightieth byte, each byte shows in the
/// cell of its rank, and the cells behind the last byte are untouched.
pub proof fn lemma_fill_from_top(state: TerminalState, bytes: Seq<u8>)
    requires
        state.row == 0,
        state.col == 0,
        state.screen.cells.len() == VGA_BUFFER_SIZE,
        all_paint(bytes),
        1 <= bytes.len() <= VGA_BUFFER_SIZE,
    ensures
        state.accepts_all(bytes),
        state.lines_scrolled(bytes) == 0,
        state.write_all(bytes).row == (bytes.len() - 1) / (VGA_TEXT_WIDTH as int),
        state.write_all(bytes).col == (bytes.len() - 1) % (VGA_TEXT_WIDTH as int) + 1,
        state.write_all(bytes).screen == (Screen {
            cells: Seq::new(
                VGA_BUFFER_SIZE as nat,
                |i: int|
                    if i < bytes.len() {
                        state.screen.cell_for(bytes[i])
                    } else {
                        state.screen.cells[i]
                    },
            ),
            ..state.screen
        }),
    decreases bytes.len(),
{
    let front = bytes.drop_last();
    if front.len() == 0 {
        assert(state.accepts_all(front));
        assert(state.lines_scrolled(front) == 0);
    } else {
        lemma_fill_from_top(state, front);
    }
    let before = state.write_all(front);
    let rank = front.len() as int;
    assert(before.wrapped_row() * 80 + before.wrapped_col() == rank);
    lemma_scrolled_by_nothing(before.screen.cells);
    assert(state.write_all(bytes).screen.cells =~= Seq::new(
        VGA_BUFFER_SIZE as nat,
        |i: int|
            if i < bytes.len() {
                state.screen.cell_for(bytes[i])
            } else {
                state.screen.cells[i]
            },
    ));
}

/// One byte more than the grid has cells: the last byte, and no byte before
/// it, scrolls the grid, by one row. The first eighty bytes are lost, the
/// others show one row higher than they were painted, the last byte shows in
/// the first cell of the last row, and the rest of that row is blank. The
/// cursor ends behind the last byte.
pub proof fn lemma_one_more_than_a_screen(state: TerminalState, bytes: Seq<u8>)
    requires
        state.row == 0,
        state.col == 0,
        state.screen.cells.len() == VGA_BUFFER_SIZE,
        all_paint(bytes),
        bytes.len() == VGA_BUFFER_SIZE + 1,
    ensures
        state.accepts_all(bytes),
        state.lines_scrolled(bytes.drop_last()) == 0,
        state.lines_scrolled(bytes) == 1,
        state.write_all(bytes).row == VGA_TEXT_HEIGHT - 1,
        state.write_all(bytes).col == 1,
        forall|i: int|
            0 <= i < VGA_BUFFER_SIZE - VGA_TEXT_WIDTH ==> #[trigger] state.write_all(
                bytes,
            ).screen.cells[i] == state.screen.cell_for(bytes[i + VGA_TEXT_WIDTH]),
        state.write_all(bytes).screen.cells[VGA_BUFFER_SIZE - VGA_TEXT_WIDTH]
            == state.screen.cell_for(bytes.last()),
        forall|i: int|
            VGA_BUFFER_SIZE - VGA_TEXT_WIDTH < i < VGA_BUFFER_SIZE ==> #[trigger] state.write_all(
                bytes,
            ).screen.cells[i] == BLANK_CELL,
{
    let front = bytes.drop_last();
    lemma_fill_from_top(state, front);
    let end = state.write_all(bytes);
    assert forall|i: int| 0 <= i < VGA_BUFFER_SIZE - VGA_TEXT_WIDTH implies #[trigger] end.screen.cells[i]
        == state.screen.cell_for(bytes[i + VGA_TEXT_WIDTH]) by {
        assert(front[i + 80] == bytes[i + 80]);
    }
}

} // verus!
