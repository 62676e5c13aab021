//! Signed-distance-field images built from padded glyph masks.
use vstd::prelude::*;

use crate::image::{pad_image, Content, GlyphImage, Placement};

verus! {

/// Search radius of the distance transform, in pixels: the distance field
/// extends this far beyond the mask on every side.
pub const DISTANCE_FIELD_PAD: usize = 4;

/// A distance transform. `generate` reads a padded mask together with the
/// width and height of the mask before padding, writes one distance byte per
/// pixel into `output` (`(width + 2 * DISTANCE_FIELD_PAD) * (height + 2 *
/// DISTANCE_FIELD_PAD)` bytes, allocated by the caller) and reports success.
/// It keeps no reference to either buffer.
pub trait DistanceTransform {
    fn generate(&self, output: &mut Vec<u8>, mask: &[u8], width: usize, height: usize) -> bool;
}

/// Number of bytes of the distance field of a `width` x `height` mask.
pub open spec fn distance_field_len(width: nat, height: nat) -> nat {
    ((width + 2 * DISTANCE_FIELD_PAD) * (height + 2 * DISTANCE_FIELD_PAD)) as nat
}

/// Placement of the distance field of an image placed at `p`.
pub open spec fn distance_field_placement(p: Placement) -> Placement {
    Placement {
        left: (p.left - DISTANCE_FIELD_PAD) as i32,
        top: (p.top + DISTANCE_FIELD_PAD) as i32,
        width: (p.width + 2 * DISTANCE_FIELD_PAD) as u32,
        height: (p.height + 2 * DISTANCE_FIELD_PAD) as u32,
    }
}

/// The placement of `p` can be grown by the distance-field margin on every
/// side, and both buffers fit in memory.
pub open spec fn sdf_fits(p: Placement) -> bool {
    &&& p.left - DISTANCE_FIELD_PAD >= i32::MIN
    &&& p.top + DISTANCE_FIELD_PAD <= i32::MAX
    &&& p.width + 2 * DISTANCE_FIELD_PAD <= u32::MAX
    &&& p.height + 2 * DISTANCE_FIELD_PAD <= u32::MAX
    &&& distance_field_len(p.width as nat, p.height as nat) <= usize::MAX
}

/// Wraps the output of a distance transform of `image` into an image: `Some`
/// exactly when the transform succeeded and its output has one byte per pixel
/// of the grown placement.
pub fn distance_field_image(image: &GlyphImage, ok: bool, distance_field: Vec<u8>) -> (r: Option<
    GlyphImage,
>)
    requires
        sdf_fits(image.placement),
    ensures
        r is Some <==> ok && distance_field@.len() == distance_field_len(
            image.placement.width as nat,
            image.placement.height as nat,
        ),
        r matches Some(img) ==> {
            &&& img.placement == distance_field_placement(image.placement)
            &&& img.content == Content::DistanceField
            &&& img.data@ == distance_field@
        },
{
    let width = image.placement.width as usize;
    let height = image.placement.height as usize;
    let pad = DISTANCE_FIELD_PAD;
    if ok && distance_field.len() == (width + 2 * pad) * (height + 2 * pad) {
        Some(
            GlyphImage {
                placement: Placement {
                    left: image.placement.left - pad as i32,
                    top: image.placement.top + pad as i32,
                    width: image.placement.width + 2 * pad as u32,
                    height: image.placement.height + 2 * pad as u32,
                },
                content: Content::DistanceField,
                data: distance_field,
            },
        )
    } else {
        None
    }
}

/// Renders the signed distance field of a mask image: pads the mask by one
/// pixel, lets `transform` fill a buffer of the grown size, and wraps the
/// result. On success the image has content `DistanceField`, is
/// `DISTANCE_FIELD_PAD` pixels larger than the mask on every side, and holds
/// one byte per pixel; `None` when the transform fails or breaks the buffer
/// length.
pub fn render_sdf<T: DistanceTransform>(image: &GlyphImage, transform: &T) -> (r: Option<
    GlyphImage,
>)
    requires
        image.content == Content::Mask,
        image.data@.len() >= image.placement.width * image.placement.height,
        sdf_fits(image.placement),
    ensures
        r matches Some(img) ==> {
            &&& img.placement == distance_field_placement(image.placement)
            &&& img.content == Content::DistanceField
            &&& img.data@.len() == distance_field_len(
                image.placement.width as nat,
                image.placement.height as nat,
            )
            &&& img.wf()
        },
{
    let width = image.placement.width as usize;
    let height = image.placement.height as usize;
    proof {
        let (w, h) = (width as int, height as int);
        let p = DISTANCE_FIELD_PAD as int;
        assert((w + 2) * (h + 2) <= (w + 2 * p) * (h + 2 * p)) by (nonlinear_arith)
            requires 0 <= w, 0 <= h, 1 <= p;
    }
    let padded = pad_image(image);
    let pad = DISTANCE_FIELD_PAD;
    let mut distance_field: Vec<u8> = vec![0u8; (width + 2 * pad) * (height + 2 * pad)];
    let ok = transform.generate(&mut distance_field, padded.data.as_slice(), width, height);
    distance_field_image(image, ok, distance_field)
}

} // verus!
