use std::rc::Rc;

use glyph_images::render::{
    accept_rasterized, render_glyph_image, render_sources, render_with_font, GlyphRasterizer,
    RenderSource,
    StrikeSelection,
};
use glyph_images::image::{Content, GlyphImage, Placement};
use glyph_images::shapes::{
    CacheKey, GlyphRun, GlyphRunMetrics, PixelBounds, PositionedGlyph, Shape, SubpixelBin,
};

fn key(glyph_id: u16) -> CacheKey {
    CacheKey {
        font_id: fontdb::ID::dummy(),
        glyph_id,
        font_size_bits: 100.0f32.to_bits(),
        x_bin: SubpixelBin::Zero,
        y_bin: SubpixelBin::Two,
    }
}

#[test]
fn metrics_size_adds_ascent_and_descent() {
    let m = GlyphRunMetrics { max_ascent: 93, max_descent: 24, width: 113 };
    assert_eq!(m.size(), (113, 117));
    let zero = GlyphRunMetrics { max_ascent: 0, max_descent: 0, width: 0 };
    assert_eq!(zero.size(), (0, 0));
}

#[test]
fn pixel_bounds_from_hitbox() {
    let g = PositionedGlyph::new(key(3), (10, -21), 12.5f32.to_bits());
    assert_eq!(g.hitbox_pos, (10, -21));
    assert_eq!(f32::from_bits(g.hitbox_width_bits), 12.5);
    assert_eq!(
        g.pixel_bounds_at((2, 5)),
        PixelBounds { min_x: 12, min_y: -16, max_x: 13, max_y: -15 }
    );
    assert_eq!(
        g.pixel_bounds_at((0, 0)),
        PixelBounds { min_x: 10, min_y: -21, max_x: 11, max_y: -20 }
    );
}

#[test]
fn shapes_share_one_transform() {
    let matrix = Rc::new([[1.0f64; 4]; 4]);
    let metrics = GlyphRunMetrics { max_ascent: 3, max_descent: 1, width: 9 };
    let glyphs = vec![
        PositionedGlyph::new(key(1), (0, 0), 4.0f32.to_bits()),
        PositionedGlyph::new(key(2), (5, 0), 4.0f32.to_bits()),
    ];
    let a = Shape::glyph_run(metrics, glyphs.clone(), matrix.clone());
    let b = Shape::GlyphRun(GlyphRun::new(matrix.clone(), metrics, glyphs));
    assert_eq!(Rc::strong_count(&matrix), 3);
    match (&a, &b) {
        (Shape::GlyphRun(ra), Shape::GlyphRun(rb)) => {
            assert!(Rc::ptr_eq(&ra.model_matrix, &rb.model_matrix));
            assert_eq!(ra.metrics, metrics);
            assert_eq!(ra.glyphs.len(), 2);
            assert_eq!(ra.glyphs[0].key.glyph_id, 1);
            assert_eq!(ra.glyphs[1].key.glyph_id, 2);
            assert_eq!(rb.glyphs[1].hitbox_pos, (5, 0));
        }
        _ => panic!("both shapes are glyph runs"),
    }
}

#[test]
fn sources_in_priority_order() {
    assert_eq!(
        render_sources(),
        vec![
            RenderSource::ColorOutline(0),
            RenderSource::ColorBitmap(StrikeSelection::BestFit),
            RenderSource::Outline,
        ]
    );
}

struct Unreachable;

impl GlyphRasterizer for Unreachable {
    fn rasterize(
        &mut self,
        _font: &cosmic_text::Font,
        _key: &CacheKey,
        _sources: &[RenderSource],
    ) -> Option<GlyphImage> {
        panic!("no font was found, nothing should be rasterized")
    }
}

#[test]
fn missing_font_gives_no_image() {
    let mut font_system =
        cosmic_text::FontSystem::new_with_locale_and_db("en-US".to_string(), fontdb::Database::new());
    let mut rasterizer = Unreachable;
    assert!(render_glyph_image(&mut font_system, &mut rasterizer, key(5)).is_none());
    assert!(render_glyph_image(&mut font_system, &mut rasterizer, key(5)).is_none());
    assert!(render_with_font(None, &mut rasterizer, key(5)).is_none());
}

#[test]
fn placement_is_plain_data() {
    let p = Placement { left: 1, top: 2, width: 3, height: 4 };
    let image = GlyphImage { placement: p, content: Content::Mask, data: vec![0; 12] };
    assert_eq!(image.placement, p);
}

fn image(content: Content, len: usize) -> GlyphImage {
    GlyphImage {
        placement: Placement { left: 1, top: 2, width: 2, height: 3 },
        content,
        data: vec![9; len],
    }
}

#[test]
fn accepts_only_alpha_masks() {
    let kept = accept_rasterized(Some(image(Content::Mask, 6))).expect("a mask is kept");
    assert_eq!(kept.placement, Placement { left: 1, top: 2, width: 2, height: 3 });
    assert_eq!(kept.content, Content::Mask);
    assert_eq!(kept.data, vec![9; 6]);
    assert!(accept_rasterized(Some(image(Content::Mask, 5))).is_none());
    assert!(accept_rasterized(Some(image(Content::Color, 24))).is_none());
    assert!(accept_rasterized(Some(image(Content::SubpixelMask, 24))).is_none());
    assert!(accept_rasterized(None).is_none());
}

#[test]
fn equal_keys_compare_equal() {
    assert_eq!(key(7), key(7));
    assert_ne!(key(7), key(8));
    let mut other = key(7);
    other.x_bin = SubpixelBin::One;
    assert_ne!(key(7), other);
    let mut set = std::collections::HashSet::new();
    set.insert(key(7));
    assert!(set.contains(&key(7)));
}

#[test]
fn pixel_bounds_with_negative_anchor_and_large_offset() {
    let g = PositionedGlyph::new(key(1), (i32::MIN, -5), 0);
    let b = g.pixel_bounds_at((u32::MAX - 10, 3));
    assert_eq!(b.min_x, i32::MAX - 10);
    assert_eq!(b.max_x, i32::MAX - 9);
    assert_eq!((b.min_y, b.max_y), (-2, -1));
}
