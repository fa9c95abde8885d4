//! Box drawing: border glyph resolution and the cell-buffer compositor.

pub mod border;
pub mod boxes;
