//! A cell-buffer compositing engine for terminal user interfaces.
//!
//! The library renders rectangular, optionally bordered, optionally colored
//! and text-filled regions onto a fixed-size grid of character cells, and
//! compiles the grid into one escape-annotated frame string. Terminal I/O
//! (raw mode, size discovery, key events) is left to the caller.

pub mod common;
pub mod draw;
pub mod window;
