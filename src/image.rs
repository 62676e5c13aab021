//! Single-channel glyph images and the one-pixel border padding.
use vstd::arithmetic::div_mod::lemma_fundamental_div_mod_converse;
use vstd::prelude::*;

verus! {

/// What the pixel data of a glyph image encodes.
#[derive(Clone, Copy, Debug, PartialEq, Eq, Structural)]
pub enum Content {
    /// One coverage byte per pixel.
    Mask,
    /// Four bytes per pixel of sub-pixel coverage.
    SubpixelMask,
    /// Four bytes per pixel of color.
    Color,
    /// One distance byte per pixel.
    DistanceField,
}

/// Where an image sits relative to the pen position, in pixels; the vertical
/// axis grows downwards, so `top` is the distance from the baseline up to the
/// first row.
#[derive(Clone, Copy, Debug, PartialEq, Eq, Structural)]
pub struct Placement {
    pub left: i32,
    pub top: i32,
    pub width: u32,
    pub height: u32,
}

/// A rendered glyph: placement, content kind and row-major pixel bytes.
#[derive(Clone, Debug)]
pub struct GlyphImage {
    pub placement: Placement,
    pub content: Content,
    pub data: Vec<u8>,
}

/// Bytes per pixel for each content kind.
pub open spec fn channels(content: Content) -> nat {
    match content {
        Content::Mask => 1,
        Content::SubpixelMask => 4,
        Content::Color => 4,
        Content::DistanceField => 1,
    }
}

/// The byte at `(row, col)` of a row-major buffer whose rows are `width` long.
pub open spec fn pixel(data: Seq<u8>, width: int, row: int, col: int) -> u8 {
    data[row * width + col]
}

/// The value at `(row, col)` of `image` (a `width` x `height` mask) after a
/// zero border of one pixel has been put around it.
pub open spec fn padded_value(image: Seq<u8>, width: int, height: int, row: int, col: int) -> u8 {
    if 1 <= row <= height && 1 <= col <= width {
        pixel(image, width, row - 1, col - 1)
    } else {
        0
    }
}

/// The whole padded buffer, `(width + 2) * (height + 2)` bytes, row-major.
pub open spec fn padded_data(image: Seq<u8>, width: nat, height: nat) -> Seq<u8> {
    let w: int = width + 2int;
    Seq::new(
        (w * (height + 2)) as nat,
        |i: int| padded_value(image, width as int, height as int, i / w, i % w),
    )
}

impl GlyphImage {
    /// The pixel buffer holds exactly one entry of the content's size per pixel.
    pub open spec fn wf(&self) -> bool {
        self.data@.len() == channels(self.content) * self.placement.width * self.placement.height
    }
}

/// Copies the `width` x `height` mask `image` into the interior of a buffer one
/// pixel larger on every side, whose border is zero.
pub fn pad_image_data(image: &[u8], width: usize, height: usize) -> (r: Vec<u8>)
    requires
        image@.len() >= width * height,
        (width + 2) * (height + 2) <= usize::MAX,
    ensures
        r@ == padded_data(image@, width as nat, height as nat),
{
    proof {
        let (w, h) = (width as int, height as int);
        assert(w + 2 <= (w + 2) * (h + 2) && h + 2 <= (w + 2) * (h + 2) && w * h <= (w + 2) * (h + 2))
            by (nonlinear_arith)
            requires 0 <= w, 0 <= h;
    }
    let row_len: usize = width + 2;
    let rows: usize = height + 2;
    let total: usize = row_len * rows;
    let mut padded: Vec<u8> = Vec::with_capacity(total);
    let mut i: usize = 0;
    while i < total
        invariant
            row_len == width + 2,
            rows == height + 2,
            total == row_len * rows,
            (width + 2) * (height + 2) <= usize::MAX,
            width * height <= usize::MAX,
            image@.len() >= width * height,
            i <= total,
            padded@.len() == i,
            forall|k: int| 0 <= k < i ==> padded@[k] == padded_data(image@, width as nat, height as nat)[k],
        decreases total - i,
    {
        let row: usize = i / row_len;
        let col: usize = i % row_len;
        let v: u8 = if 1 <= row && row <= height && 1 <= col && col <= width {
            proof {
                let (r1, c1) = ((row - 1) as int, (col - 1) as int);
                assert(r1 * width + c1 < width * height) by (nonlinear_arith)
                    requires 0 <= r1 < height, 0 <= c1 < width;
                assert(0 <= r1 * width) by (nonlinear_arith)
                    requires 0 <= r1, 0 <= width;
            }
            image[(row - 1) * width + (col - 1)]
        } else {
            0u8
        };
        padded.push(v);
        i = i + 1;
    }
    assert(padded@ =~= padded_data(image@, width as nat, height as nat));
    padded
}

/// Pads a mask image with a zero border of one pixel on every side: the
/// placement moves one pixel left and one pixel up (`top` grows by one) and
/// both dimensions grow by two.
pub fn pad_image(image: &GlyphImage) -> (r: GlyphImage)
    requires
        image.content == Content::Mask,
        image.data@.len() >= image.placement.width * image.placement.height,
        (image.placement.width + 2) * (image.placement.height + 2) <= usize::MAX,
        image.placement.left > i32::MIN,
        image.placement.top < i32::MAX,
        image.placement.width + 2 <= u32::MAX,
        image.placement.height + 2 <= u32::MAX,
    ensures
        r.placement == (Placement {
            left: (image.placement.left - 1) as i32,
            top: (image.placement.top + 1) as i32,
            width: (image.placement.width + 2) as u32,
            height: (image.placement.height + 2) as u32,
        }),
        r.content == Content::Mask,
        r.wf(),
        r.data@ == padded_data(
            image.data@,
            image.placement.width as nat,
            image.placement.height as nat,
        ),
{
    let padded_data = pad_image_data(
        image.data.as_slice(),
        image.placement.width as usize,
        image.placement.height as usize,
    );
    GlyphImage {
        placement: Placement {
            left: image.placement.left - 1,
            top: image.placement.top + 1,
            width: image.placement.width + 2,
            height: image.placement.height + 2,
        },
        content: image.content,
        data: padded_data,
    }
}

proof fn lemma_padded_cell(image: Seq<u8>, width: nat, height: nat, row: int, col: int)
    requires
        0 <= row < height + 2,
        0 <= col < width + 2,
    ensures
        0 <= row * (width + 2) + col < padded_data(image, width, height).len(),
        pixel(padded_data(image, width, height), (width + 2) as int, row, col)
            == padded_value(image, width as int, height as int, row, col),
{
    let w: int = width + 2int;
    let i = row * w + col;
    assert(0 <= i < w * (height + 2)) by (nonlinear_arith)
        requires 0 <= row < height + 2, 0 <= col < w, i == row * w + col;
    lemma_fundamental_div_mod_converse(i, w, row, col);
}

/// Padding grows each dimension by exactly two, leaves a zero border, and
/// keeps the original pixels unchanged in the interior, each shifted by one
/// row and one column.
pub proof fn lemma_pad_round_trip(image: Seq<u8>, width: nat, height: nat)
    requires
        image.len() >= width * height,
    ensures
        padded_data(image, width, height).len() == (width + 2) * (height + 2),
        forall|row: int, col: int|
            0 <= row < height && 0 <= col < width ==> #[trigger] pixel(
                padded_data(image, width, height),
                (width + 2) as int,
                row + 1,
                col + 1,
            ) == pixel(image, width as int, row, col),
        forall|row: int, col: int|
            0 <= row < height + 2 && 0 <= col < width + 2 && (row == 0 || col == 0 || row
                == height + 1 || col == width + 1) ==> #[trigger] pixel(
                padded_data(image, width, height),
                (width + 2) as int,
                row,
                col,
            ) == 0,
{
    assert forall|row: int, col: int| 0 <= row < height && 0 <= col < width implies #[trigger] pixel(
        padded_data(image, width, height),
        (width + 2) as int,
        row + 1,
        col + 1,
    ) == pixel(image, width as int, row, col) by {
        lemma_padded_cell(image, width, height, row + 1, col + 1);
    }
    assert forall|row: int, col: int|
        0 <= row < height + 2 && 0 <= col < width + 2 && (row == 0 || col == 0 || row == height
            + 1 || col == width + 1) implies #[trigger] pixel(
        padded_data(image, width, height),
        (width + 2) as int,
        row,
        col,
    ) == 0 by {
        lemma_padded_cell(image, width, height, row, col);
    }
}

} // verus!
