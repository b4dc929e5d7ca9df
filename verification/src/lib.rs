//! A text-mode display driver for the 80x25 VGA character grid.
//!
//! Three layers are stacked bottom-up: a [`buffer::Buffer`] holds the grid of
//! sixteen-bit cells, a [`device::Device`] paints single cells with the current
//! colour attributes, and a [`terminal::Terminal`] keeps the cursor and gives
//! the grid its line discipline: wrapping, newline, carriage return and
//! scrolling.
//!
//! A buffer keeps its cells in memory of its own and remembers the address of
//! the region that they stand for, which is what tells the buffer of the
//! display hardware from any other. Bringing the cells to that region is left
//! to the owner of the terminal, who reads them with
//! [`device::Device::cells`].
//!
//! The cursor's row is a byte. Newlines can take it below the grid, and the
//! next byte that paints a cell scrolls it back; a newline in row 255 is the
//! one write that a terminal does not take (see
//! [`terminal::Terminal::accepts`]).
pub mod buffer;
pub mod cell;
pub mod device;
pub mod position;
pub mod terminal;
pub mod terminal_lemmas;
