//! Glyph images for a real-time text renderer: the data model of positioned
//! glyphs and glyph runs, and the pipeline that turns a glyph into an alpha
//! mask, pads it, and hands it to a distance transform.
pub mod image;
pub mod render;
pub mod sdf;
pub mod shapes;
