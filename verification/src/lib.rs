//! A character-cell text console for the PC's memory-mapped text display.
//!
//! The display is a fixed grid of cells, each a character code and a colour
//! attribute. A [`writer::Writer`] keeps a cursor on that grid and renders a byte
//! stream onto it: printable bytes are placed at the cursor, lines wrap at the
//! right edge, the grid scrolls when the last row is left, and a backspace
//! erases the cell before the cursor.
//!
//! What each operation does is stated over [`screen::Screen`], a mathematical
//! model of grid and cursor, and proved of the code that drives the display
//! cells. What follows for every input is proved in [`lemmas`].

pub mod color;
pub mod buffer;
pub mod screen;
pub mod writer;
pub mod lemmas;
