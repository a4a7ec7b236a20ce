//! A text-mode display driver: a writer that places ASCII text on the bottom
//! line of an 80x25 grid of character cells, wraps at the right edge and
//! scrolls the grid up by one line when the line is full or a newline arrives.
//!
//! The grid is memory that the display hardware reads, so every cell is a
//! `volatile::Volatile` and is touched only through its volatile read and
//! write. What the writer does to the grid is stated over [`Screen`], the
//! mathematical picture of the display.

pub mod buffer;
pub mod color;
pub mod console;
pub mod laws;
pub mod screen;
pub mod writer;

pub use buffer::{Buffer, ScreenChar, BUFFER_HEIGHT, BUFFER_WIDTH};
pub use color::{Color, ColorCode};
pub use console::{_print, console_writer};
pub use screen::Screen;
pub use writer::Writer;
