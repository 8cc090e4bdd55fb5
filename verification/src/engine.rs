//! The mosaic engine: block-pixelation of the interior of a selection.
//!
//! The image plane is cut into squares of side `2 * radius + 1`, anchored at
//! the image's own origin. A pixel strictly inside the selection takes the
//! color of the center pixel of its square, provided that center lies inside
//! the image; every other pixel keeps its color.

use vstd::prelude::*;
use vstd::arithmetic::div_mod::{lemma_fundamental_div_mod, lemma_fundamental_div_mod_converse};
use std::collections::HashMap;
use crate::geometry::ImagePoint;
use crate::raster::{Color, Image, ImageView};

verus! {

/// The smallest block radius.
pub const MIN_RADIUS: u32 = 1;

/// The greatest block radius that the editor offers.
pub const MAX_RADIUS: u32 = 20;

/// The block radius that the editor starts with.
pub const DEFAULT_RADIUS: u32 = 5;

/// The side of a block.
pub open spec fn diameter(radius: int) -> int {
    2 * radius + 1
}

/// The coordinate of the center of the block that holds coordinate `v`.
pub open spec fn block_center(v: int, radius: int) -> int {
    v - v % diameter(radius) + radius
}

/// Whether `(x, y)` is the center pixel of its block.
pub open spec fn is_block_center(x: int, y: int, radius: int) -> bool {
    x % diameter(radius) == radius && y % diameter(radius) == radius
}

/// Whether the pixel `(x, y)` lies strictly inside the rectangle between `min`
/// and `max`. Pixels on the rectangle's boundary are outside.
pub open spec fn is_selected(min: ImagePoint, max: ImagePoint, x: int, y: int) -> bool {
    min.precedes(x, y) && max.follows(x, y)
}

/// Whether the mosaic gives pixel `(x, y)` another pixel's color: it is
/// selected, it is not a block center, and the center of its block lies inside
/// the image.
pub open spec fn is_replaced(
    img: ImageView,
    min: ImagePoint,
    max: ImagePoint,
    radius: int,
    x: int,
    y: int,
) -> bool {
    &&& is_selected(min, max, x, y)
    &&& !is_block_center(x, y, radius)
    &&& block_center(x, radius) < img.width
    &&& block_center(y, radius) < img.height
}

/// The color of pixel `(x, y)` after the mosaic.
pub open spec fn mosaic_pixel(
    img: ImageView,
    min: ImagePoint,
    max: ImagePoint,
    radius: int,
    x: int,
    y: int,
) -> Color {
    if is_replaced(img, min, max, radius, x, y) {
        img.pixels[(block_center(x, radius), block_center(y, radius))]
    } else {
        img.pixels[(x, y)]
    }
}

/// The image after the mosaic: same dimensions, each pixel as
/// [`mosaic_pixel`] gives it.
pub open spec fn mosaic(img: ImageView, min: ImagePoint, max: ImagePoint, radius: int) -> ImageView {
    ImageView {
        width: img.width,
        height: img.height,
        pixels: Map::new(
            |k: (int, int)| img.contains(k.0, k.1),
            |k: (int, int)| mosaic_pixel(img, min, max, radius, k.0, k.1),
        ),
    }
}

/// The center of the block that holds `v` is a block center, and `v` is at
/// most `radius` away from it.
pub proof fn lemma_block_center(v: int, radius: int)
    requires
        0 <= v,
        0 <= radius,
    ensures
        0 <= v % diameter(radius) < diameter(radius),
        block_center(v, radius) % diameter(radius) == radius,
        block_center(v, radius) - radius <= v <= block_center(v, radius) + radius,
        radius <= block_center(v, radius),
{
    let d = diameter(radius);
    let q = v / d;
    lemma_fundamental_div_mod(v, d);
    assert(d * q == q * d) by (nonlinear_arith);
    lemma_fundamental_div_mod_converse(block_center(v, radius), d, q, radius);
}

/// Where the mosaic replaces no pixel, the image comes out as it went in.
pub proof fn lemma_unchanged_where_nothing_replaced(
    img: ImageView,
    min: ImagePoint,
    max: ImagePoint,
    radius: int,
)
    requires
        img.wf(),
        forall|x: int, y: int|
            img.contains(x, y) ==> !#[trigger] is_replaced(img, min, max, radius, x, y),
    ensures
        mosaic(img, min, max, radius) == img,
{
    assert(mosaic(img, min, max, radius).pixels =~= img.pixels);
}

/// A selection whose two corners coincide has no interior, so the mosaic
/// leaves every pixel as it is.
pub proof fn lemma_empty_selection_unchanged(img: ImageView, corner: ImagePoint, radius: int)
    requires
        img.wf(),
    ensures
        mosaic(img, corner, corner, radius) == img,
{
    lemma_unchanged_where_nothing_replaced(img, corner, corner, radius);
}

/// A pixel that is not strictly inside the selection keeps its color.
pub proof fn lemma_unselected_pixel_unchanged(
    img: ImageView,
    min: ImagePoint,
    max: ImagePoint,
    radius: int,
    x: int,
    y: int,
)
    requires
        img.contains(x, y),
        !is_selected(min, max, x, y),
    ensures
        mosaic(img, min, max, radius).pixels[(x, y)] == img.pixels[(x, y)],
{
}

/// A block center keeps its color: for any pixel `(x, y)` whose block has its
/// center inside the image, the mosaic leaves that center pixel as it is,
/// whatever the selection and the radius.
pub proof fn lemma_center_preserved(
    img: ImageView,
    min: ImagePoint,
    max: ImagePoint,
    radius: int,
    x: int,
    y: int,
)
    requires
        0 <= x,
        0 <= y,
        1 <= radius,
        img.contains(block_center(x, radius), block_center(y, radius)),
    ensures
        is_block_center(block_center(x, radius), block_center(y, radius), radius),
        mosaic(img, min, max, radius).pixels[(block_center(x, radius), block_center(y, radius))]
            == img.pixels[(block_center(x, radius), block_center(y, radius))],
{
    lemma_block_center(x, radius);
    lemma_block_center(y, radius);
}

/// A pixel of a block whose center falls outside the image keeps its color.
pub proof fn lemma_edge_block_unchanged(
    img: ImageView,
    min: ImagePoint,
    max: ImagePoint,
    radius: int,
    x: int,
    y: int,
)
    requires
        img.contains(x, y),
        !img.contains(block_center(x, radius), block_center(y, radius)),
        1 <= radius,
    ensures
        mosaic(img, min, max, radius).pixels[(x, y)] == img.pixels[(x, y)],
{
    lemma_block_center(x, radius);
    lemma_block_center(y, radius);
}

/// An image that is no wider, or no higher, than the block radius holds no
/// block center, so the mosaic leaves it unchanged under every selection.
pub proof fn lemma_image_without_center_unchanged(
    img: ImageView,
    min: ImagePoint,
    max: ImagePoint,
    radius: int,
)
    requires
        img.wf(),
        1 <= radius,
        img.width <= radius || img.height <= radius,
    ensures
        mosaic(img, min, max, radius) == img,
{
    assert forall|x: int, y: int| img.contains(x, y) implies !#[trigger] is_replaced(
        img,
        min,
        max,
        radius,
        x,
        y,
    ) by {
        lemma_block_center(x, radius);
        lemma_block_center(y, radius);
    }
    lemma_unchanged_where_nothing_replaced(img, min, max, radius);
}

/// The block grid does not move with the selection. Under any two selections
/// a pixel either has the same color, or it is selected by exactly one of
/// them and differs only in that one gives it the color of its block center,
/// the other its own: the center is the same under both.
pub proof fn lemma_grid_is_anchored(
    img: ImageView,
    min1: ImagePoint,
    max1: ImagePoint,
    min2: ImagePoint,
    max2: ImagePoint,
    radius: int,
    x: int,
    y: int,
)
    ensures
        is_selected(min1, max1, x, y) == is_selected(min2, max2, x, y) ==> mosaic_pixel(
            img,
            min1,
            max1,
            radius,
            x,
            y,
        ) == mosaic_pixel(img, min2, max2, radius, x, y),
        mosaic_pixel(img, min1, max1, radius, x, y) != mosaic_pixel(img, min2, max2, radius, x, y)
            ==> {
            let center = img.pixels[(block_center(x, radius), block_center(y, radius))];
            let own = img.pixels[(x, y)];
            ||| (is_selected(min1, max1, x, y) && !is_selected(min2, max2, x, y) && mosaic_pixel(
                img,
                min1,
                max1,
                radius,
                x,
                y,
            ) == center && mosaic_pixel(img, min2, max2, radius, x, y) == own)
            ||| (is_selected(min2, max2, x, y) && !is_selected(min1, max1, x, y) && mosaic_pixel(
                img,
                min2,
                max2,
                radius,
                x,
                y,
            ) == center && mosaic_pixel(img, min1, max1, radius, x, y) == own)
        },
{
}

/// The horizontal coordinate of the block center whose color is remembered
/// under `key`.
spec fn key_x(key: u64) -> int {
    key as int / 0x1_0000_0000
}

/// The vertical coordinate of the block center whose color is remembered
/// under `key`.
spec fn key_y(key: u64) -> int {
    key as int % 0x1_0000_0000
}

/// Whether the column-major walk that stands at `(x, y)` has passed `(i, j)`.
spec fn is_visited(i: int, j: int, x: int, y: int) -> bool {
    i < x || (i == x && j < y)
}

/// Every remembered color is the color that `img` has at the block center
/// it was sampled from.
spec fn cache_agrees(cache: Map<u64, Color>, img: ImageView) -> bool {
    forall|k: u64| #[trigger]
        cache.contains_key(k) ==> {
            &&& img.contains(key_x(k), key_y(k))
            &&& cache[k] == img.pixels[(key_x(k), key_y(k))]
        }
}

/// The walk at `(x, y)` has given every pixel it passed its mosaic color and
/// left the others as they are in `base`.
spec fn is_partial_mosaic(
    current: ImageView,
    base: ImageView,
    min: ImagePoint,
    max: ImagePoint,
    radius: int,
    x: int,
    y: int,
) -> bool {
    &&& current.width == base.width
    &&& current.height == base.height
    &&& current.wf()
    &&& forall|i: int, j: int|
        base.contains(i, j) ==> #[trigger] current.pixels[(i, j)] == if is_visited(i, j, x, y) {
            mosaic_pixel(base, min, max, radius, i, j)
        } else {
            base.pixels[(i, j)]
        }
}

/// The block center whose color the mosaic gives to pixel `(x, y)`, or `None`
/// where the pixel keeps its own color: outside the selection, on a block
/// center, or in a block whose center falls outside the image.
pub fn sampled_center(
    img: &Image,
    min: ImagePoint,
    max: ImagePoint,
    radius: u32,
    x: u32,
    y: u32,
) -> (found: Option<(u32, u32)>)
    ensures
        found is Some <==> is_replaced(img@, min, max, radius as int, x as int, y as int),
        found matches Some(center) ==> {
            &&& center.0 == block_center(x as int, radius as int)
            &&& center.1 == block_center(y as int, radius as int)
            &&& img@.contains(center.0 as int, center.1 as int)
        },
{
    proof {
        lemma_block_center(x as int, radius as int);
        lemma_block_center(y as int, radius as int);
    }
    if !(min.precedes_pixel(x, y) && max.follows_pixel(x, y)) {
        return None;
    }
    let reach: u64 = radius as u64;
    let side: u64 = 2 * reach + 1;
    let offset_x: u64 = (x as u64) % side;
    let offset_y: u64 = (y as u64) % side;
    if offset_x == reach && offset_y == reach {
        return None;
    }
    let center_x: u64 = x as u64 - offset_x + reach;
    let center_y: u64 = y as u64 - offset_y + reach;
    let size: (u32, u32) = img.dimensions();
    if center_x < size.0 as u64 && center_y < size.1 as u64 {
        Some((center_x as u32, center_y as u32))
    } else {
        None
    }
}

/// Returns a copy of `base` in which the interior of the rectangle between
/// `min` and `max` is block-pixelated with blocks of radius `radius`.
///
/// `base` itself is left as it is. The color of each block center is read
/// once and remembered for the other pixels of the block.
pub fn apply(base: &Image, min: ImagePoint, max: ImagePoint, radius: u32) -> (out: Image)
    requires
        radius >= 1,
    ensures
        out@ == mosaic(base@, min, max, radius as int),
{
    broadcast use vstd::std_specs::hash::group_hash_axioms;

    let mut result = base.clone();
    let size: (u32, u32) = result.dimensions();
    let width: u32 = size.0;
    let height: u32 = size.1;
    let mut cache: HashMap<u64, Color> = HashMap::new();
    let mut x: u32 = 0;
    while x < width
        invariant
            x <= width,
            width == base@.width,
            height == base@.height,
            cache_agrees(cache@, base@),
            is_partial_mosaic(result@, base@, min, max, radius as int, x as int, 0),
        decreases width - x,
    {
        let mut y: u32 = 0;
        while y < height
            invariant
                x < width,
                y <= height,
                width == base@.width,
                height == base@.height,
                cache_agrees(cache@, base@),
                is_partial_mosaic(result@, base@, min, max, radius as int, x as int, y as int),
            decreases height - y,
        {
            match sampled_center(base, min, max, radius, x, y) {
                Some(center) => {
                    proof {
                        lemma_block_center(x as int, radius as int);
                        lemma_block_center(y as int, radius as int);
                    }
                    let key: u64 = (center.0 as u64) * 0x1_0000_0000 + center.1 as u64;
                    let color: Color = match cache.get(&key) {
                        Some(remembered) => *remembered,
                        None => {
                            let sampled: Color = result.get_pixel(center.0, center.1);
                            cache.insert(key, sampled);
                            sampled
                        },
                    };
                    result.put_pixel(x, y, color);
                },
                None => {},
            }
            y = y + 1;
        }
        x = x + 1;
    }
    assert(result@.pixels =~= mosaic(base@, min, max, radius as int).pixels);
    result
}

} // verus!
