//! The data model of placed text: cache keys, positioned glyphs, glyph runs
//! and the shapes handed to the scene renderer.
use std::rc::Rc;

use vstd::prelude::*;

verus! {

#[verifier::external_type_specification]
#[verifier::external_body]
pub struct ExFontId(fontdb::ID);

/// Which quarter of a pixel a fractional glyph position falls in; only the
/// cache key uses it, so that glyphs in the same quarter share an image.
#[derive(Clone, Copy, Debug, PartialEq, Eq, Hash, PartialOrd, Ord, Structural)]
pub enum SubpixelBin {
    Zero,
    One,
    Two,
    Three,
}

/// Identity of a rendered glyph variant: font, glyph, exact font size (its bit
/// pattern) and the sub-pixel bins of the position. Equal keys render to the
/// same image.
#[derive(Clone, Copy, Debug, PartialEq, Eq, Hash, PartialOrd, Ord)]
pub struct CacheKey {
    pub font_id: fontdb::ID,
    pub glyph_id: u16,
    pub font_size_bits: u32,
    pub x_bin: SubpixelBin,
    pub y_bin: SubpixelBin,
}

/// A glyph placed on a line: its cache key, the integer pixel anchor used for
/// hit-testing and image placement, and its advance width, kept as the bit
/// pattern of the single-precision value the layout produced.
#[derive(Clone, Copy, Debug)]
pub struct PositionedGlyph {
    pub key: CacheKey,
    pub hitbox_pos: (i32, i32),
    pub hitbox_width_bits: u32,
}

/// A one-pixel square in pixel coordinates, from the `min` corner to the
/// `max` corner.
#[derive(Clone, Copy, Debug, PartialEq, Eq, Structural)]
pub struct PixelBounds {
    pub min_x: i32,
    pub min_y: i32,
    pub max_x: i32,
    pub max_y: i32,
}

impl PositionedGlyph {
    pub fn new(key: CacheKey, hitbox_pos: (i32, i32), hitbox_width_bits: u32) -> (r: Self)
        ensures
            r.key == key,
            r.hitbox_pos == hitbox_pos,
            r.hitbox_width_bits == hitbox_width_bits,
    {
        PositionedGlyph { key, hitbox_pos, hitbox_width_bits }
    }

    /// The bounds of the pixel at `offset` from the hitbox anchor.
    pub fn pixel_bounds_at(&self, offset: (u32, u32)) -> (r: PixelBounds)
        requires
            self.hitbox_pos.0 + offset.0 + 1 <= i32::MAX,
            self.hitbox_pos.1 + offset.1 + 1 <= i32::MAX,
        ensures
            r.min_x == self.hitbox_pos.0 + offset.0,
            r.min_y == self.hitbox_pos.1 + offset.1,
            r.max_x == r.min_x + 1,
            r.max_y == r.min_y + 1,
    {
        let x = (self.hitbox_pos.0 as i64 + offset.0 as i64) as i32;
        let y = (self.hitbox_pos.1 as i64 + offset.1 as i64) as i32;
        PixelBounds { min_x: x, min_y: y, max_x: x + 1, max_y: y + 1 }
    }
}

/// Line metrics of a glyph run, in pixels.
#[derive(Clone, Copy, Debug, PartialEq, Eq, Hash, Structural)]
pub struct GlyphRunMetrics {
    pub max_ascent: u32,
    pub max_descent: u32,
    pub width: u32,
}

impl GlyphRunMetrics {
    /// Size of the glyph run in font-size pixels: its width, and the sum of
    /// ascent and descent as its height.
    pub fn size(&self) -> (r: (u32, u32))
        requires
            self.max_ascent + self.max_descent <= u32::MAX,
        ensures
            r == (self.width, (self.max_ascent + self.max_descent) as u32),
    {
        (self.width, self.max_ascent + self.max_descent)
    }
}

/// The glyphs of one shaped line in visual left-to-right order, its metrics,
/// and the model transform it shares with the other shapes of the frame.
#[derive(Debug)]
pub struct GlyphRun<M> {
    pub model_matrix: Rc<M>,
    pub metrics: GlyphRunMetrics,
    pub glyphs: Vec<PositionedGlyph>,
}

impl<M> GlyphRun<M> {
    /// Assembles a glyph run; the transform is shared, not copied.
    pub fn new(model_matrix: Rc<M>, metrics: GlyphRunMetrics, glyphs: Vec<PositionedGlyph>) -> (r:
        Self)
        ensures
            r.model_matrix == model_matrix,
            r.metrics == metrics,
            r.glyphs@ == glyphs@,
    {
        GlyphRun { model_matrix, metrics, glyphs }
    }
}

/// A renderable primitive.
#[derive(Debug)]
#[non_exhaustive]
pub enum Shape<M> {
    GlyphRun(GlyphRun<M>),
}

impl<M> Shape<M> {
    /// The glyph-run shape of one shaped line.
    pub fn glyph_run(metrics: GlyphRunMetrics, glyphs: Vec<PositionedGlyph>, model_matrix: Rc<M>) -> (r:
        Self)
        ensures
            r matches Shape::GlyphRun(run) && run.model_matrix == model_matrix && run.metrics
                == metrics && run.glyphs@ == glyphs@,
    {
        Shape::GlyphRun(GlyphRun::new(model_matrix, metrics, glyphs))
    }
}

} // verus!
