//! Rendering one glyph, by its cache key, into an alpha-mask image.
use std::sync::Arc;

use vstd::prelude::*;

use crate::image::{channels, Content, GlyphImage};
use crate::shapes::CacheKey;

verus! {

#[verifier::external_type_specification]
#[verifier::external_body]
pub struct ExFontSystem(cosmic_text::FontSystem);

#[verifier::external_type_specification]
#[verifier::external_body]
pub struct ExFont(cosmic_text::Font);

/// Relies on cosmic_text::FontSystem::get_font: the font with this id from
/// the font database, or `None` where the database has no such face. What
/// comes back depends on the database, so nothing is stated of it.
#[verifier::external_body]
fn get_font(font_system: &mut cosmic_text::FontSystem, id: fontdb::ID) -> (r: Option<
    Arc<cosmic_text::Font>,
>) {
    font_system.get_font(id)
}

/// How a strike (a pre-rendered bitmap size) is chosen for a color bitmap.
#[derive(Clone, Copy, Debug, PartialEq, Eq, Structural)]
pub enum StrikeSelection {
    /// The strike of exactly the requested size.
    ExactSize,
    /// The largest strike available.
    LargestSize,
    /// The strike that fits the requested size best.
    BestFit,
    /// The strike at this index.
    Index(u32),
}

/// A source of glyph data for the rasterizer.
#[derive(Clone, Copy, Debug, PartialEq, Eq, Structural)]
pub enum RenderSource {
    /// A color outline, drawn with the palette of this index.
    ColorOutline(u16),
    /// A color bitmap, from the strike that the selection picks.
    ColorBitmap(StrikeSelection),
    /// The scalable monochrome outline.
    Outline,
}

/// The sources a glyph is rendered from, in order of priority: the first one
/// that yields data wins.
pub open spec fn source_order() -> Seq<RenderSource> {
    seq![
        RenderSource::ColorOutline(0),
        RenderSource::ColorBitmap(StrikeSelection::BestFit),
        RenderSource::Outline,
    ]
}

/// The render sources, in priority order: color outline with the first
/// palette, color bitmap with best-fit strike selection, scalable outline.
pub fn render_sources() -> (r: Vec<RenderSource>)
    ensures
        r@ == source_order(),
{
    let r = vec![
        RenderSource::ColorOutline(0),
        RenderSource::ColorBitmap(StrikeSelection::BestFit),
        RenderSource::Outline,
    ];
    assert(r@ =~= source_order());
    r
}

/// Scratch state that scales one glyph of a font into a single-channel alpha
/// image. `rasterize` builds a hinted scaler at the key's font size, applies
/// the key's sub-pixel offset, and takes the first of `sources` that yields
/// data; `None` when none does.
pub trait GlyphRasterizer {
    fn rasterize(
        &mut self,
        font: &cosmic_text::Font,
        key: &CacheKey,
        sources: &[RenderSource],
    ) -> Option<GlyphImage>;
}

/// Bytes per pixel of a content kind.
pub fn content_channels(content: Content) -> (r: u8)
    ensures
        r as nat == channels(content),
{
    match content {
        Content::Mask => 1,
        Content::SubpixelMask => 4,
        Content::Color => 4,
        Content::DistanceField => 1,
    }
}

/// Whether the pixel buffer of `image` has exactly one entry per pixel.
pub fn is_well_formed(image: &GlyphImage) -> (r: bool)
    ensures
        r == image.wf(),
{
    let w = image.placement.width as u128;
    let h = image.placement.height as u128;
    let c = content_channels(image.content) as u128;
    proof {
        assert(w * h <= 0xffff_ffffu128 * 0xffff_ffffu128) by (nonlinear_arith)
            requires w <= 0xffff_ffffu128, h <= 0xffff_ffffu128;
        assert(c * (w * h) <= 4 * (0xffff_ffffu128 * 0xffff_ffffu128)) by (nonlinear_arith)
            requires c <= 4, w * h <= 0xffff_ffffu128 * 0xffff_ffffu128;
        assert(c * (w * h) == c * w * h) by (nonlinear_arith);
    }
    image.data.len() as u128 == c * (w * h)
}

/// What is kept of a rasterizer's result: an image is accepted only where it
/// is a single-channel alpha mask with one byte per pixel, and is then passed
/// on unchanged.
pub fn accept_rasterized(image: Option<GlyphImage>) -> (r: Option<GlyphImage>)
    ensures
        r is Some <==> (image matches Some(i) && i.wf() && i.content == Content::Mask),
        r is Some ==> r == image,
{
    match image {
        Some(image) => {
            if image.content == Content::Mask && is_well_formed(&image) {
                Some(image)
            } else {
                None
            }
        },
        None => None,
    }
}

/// Renders a glyph with the font that was looked up for its key: no image
/// where there was no font. Otherwise the rasterizer gets the key and the
/// sources in priority order, and its result goes through
/// `accept_rasterized`.
pub fn render_with_font<R: GlyphRasterizer>(
    font: Option<Arc<cosmic_text::Font>>,
    rasterizer: &mut R,
    cache_key: CacheKey,
) -> (r: Option<GlyphImage>)
    ensures
        font is None ==> r is None,
        r matches Some(img) ==> img.wf() && img.content == Content::Mask,
{
    match font {
        None => None,
        Some(font) => {
            let sources = render_sources();
            accept_rasterized(rasterizer.rasterize(&font, &cache_key, sources.as_slice()))
        },
    }
}

/// Renders the glyph of `cache_key` into an image: looks the font up in
/// `font_system` and, where it is found, rasterizes the glyph from the first
/// source that yields data. `None` when the font is missing or no alpha mask
/// was rendered; an image that comes back is a single-channel alpha mask with
/// one byte per pixel.
pub fn render_glyph_image<R: GlyphRasterizer>(
    font_system: &mut cosmic_text::FontSystem,
    rasterizer: &mut R,
    cache_key: CacheKey,
) -> (r: Option<GlyphImage>)
    ensures
        r matches Some(img) ==> img.wf() && img.content == Content::Mask,
{
    let font = get_font(font_system, cache_key.font_id);
    render_with_font(font, rasterizer, cache_key)
}

} // verus!
