//! A text-mode screen writer.
//!
//! The library renders a byte stream into a fixed-size grid of color-tagged
//! character cells, the data model of a memory-mapped text display: printable
//! bytes advance a cursor, lines wrap at the right edge, and a newline on the
//! last row scrolls the whole screen up by one row. Every operation carries a
//! contract that pins down the resulting grid, cursor and color state.

pub mod buffer;
pub mod color;
pub mod laws;
pub mod qemu;
pub mod writer;
