pub mod canvas;
pub mod color;
pub mod glyphs;
