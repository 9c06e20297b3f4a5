//! A text-mode console for the VGA character display.
//!
//! The display is a fixed grid of glyph cells in memory-mapped video RAM.
//! A [`Writer`] turns a byte stream into coloured glyphs on the bottom row of
//! that grid, wrapping at the right edge and scrolling the grid up when a line
//! is finished. Every access to the display memory is a volatile read or
//! write.
//!
//! The behaviour of the writer is specified by a mathematical model,
//! [`Console`], and every operation of the writer is proved to follow it.

pub mod buffer;
pub mod cell;
pub mod color;
pub mod console;
pub mod laws;
pub mod writer;

pub use buffer::{Buffer, Surface, BUFFER_HEIGHT, BUFFER_WIDTH};
pub use cell::ScreenChar;
pub use color::{Color, ColorCode};
pub use console::Console;
pub use writer::{print_introduction, Writer};
