//! The pixel grid that the editor works on.
//!
//! An [`Image`] keeps its pixels in an `image::RgbaImage`. Verus does not look
//! inside that buffer: the few operations the library needs from it are
//! declared at the top of this file with the contracts that the `image` crate's
//! source gives them, and everything else is proved from those contracts.

use vstd::prelude::*;

verus! {

/// An RGBA color with eight bits per channel.
#[derive(Clone, Copy, Debug, PartialEq, Eq, Structural)]
pub struct Color {
    pub r: u8,
    pub g: u8,
    pub b: u8,
    pub a: u8,
}

/// A raster image of RGBA pixels.
///
/// The pixels live in an `image::RgbaImage`, which is opaque to the verifier.
/// What the buffer holds is named by [`image_size`] and [`image_samples`].
#[verifier::external_body]
#[derive(Debug)]
pub struct Image {
    buf: image::RgbaImage,
}

/// Width and height of the buffer, as `image::RgbaImage::dimensions` reports
/// them.
pub uninterp spec fn image_size(img: Image) -> (u32, u32);

/// The buffer's samples: the bytes that `image::RgbaImage::as_raw` exposes,
/// four per pixel (red, green, blue, alpha), rows from top to bottom and each
/// row from left to right.
pub uninterp spec fn image_samples(img: Image) -> Seq<u8>;

/// Where the first sample of pixel `(x, y)` stands in a buffer of the given
/// width.
pub open spec fn sample_index(width: int, x: int, y: int) -> int {
    4 * (y * width + x)
}

/// The color made of the four samples that start at `i`.
pub open spec fn color_at(samples: Seq<u8>, i: int) -> Color {
    Color { r: samples[i], g: samples[i + 1], b: samples[i + 2], a: samples[i + 3] }
}

/// The samples after the four that start at `i` are overwritten with `c`.
pub open spec fn write_color(samples: Seq<u8>, i: int, c: Color) -> Seq<u8> {
    samples.update(i, c.r).update(i + 1, c.g).update(i + 2, c.b).update(i + 3, c.a)
}

/// Calls `image::RgbaImage::from_raw`.
///
/// Trusted: the outside function counts the bytes it needs in `usize`, four
/// times the width first and that times the height, and gives up where either
/// product does not fit. So the buffer is made exactly when the length of one
/// row fits in `usize` and `data` holds at least four bytes for each of the
/// `width * height` pixels; it then has the given dimensions and keeps `data`
/// as it is.
#[verifier::external_body]
fn buffer_from_raw(width: u32, height: u32, data: Vec<u8>) -> (made: Option<Image>)
    ensures
        made is Some <==> (4 * width <= usize::MAX && 4 * width * height <= data@.len()),
        made matches Some(img) ==> image_size(img) == (width, height) && image_samples(img)
            == data@,
{
    match image::RgbaImage::from_raw(width, height, data) {
        Some(buf) => Some(Image { buf }),
        None => None,
    }
}

/// Calls `image::RgbaImage::as_raw`.
///
/// Trusted: the vector returned holds the buffer's samples.
#[verifier::external_body]
fn buffer_as_raw(img: &Image) -> (data: &Vec<u8>)
    ensures
        data@ == image_samples(*img),
{
    img.buf.as_raw()
}

/// Calls `image::RgbaImage::dimensions`.
///
/// Trusted: the result is the buffer's size, and the buffer holds at least
/// four samples for each pixel within that size.
#[verifier::external_body]
fn buffer_dimensions(img: &Image) -> (size: (u32, u32))
    ensures
        size == image_size(*img),
        4 * size.0 * size.1 <= image_samples(*img).len(),
{
    img.buf.dimensions()
}

/// Calls `image::RgbaImage::get_pixel`, which panics outside the image.
///
/// Trusted: inside the image the result is made of the four samples at the
/// pixel's place in the buffer.
#[verifier::external_body]
fn buffer_get_pixel(img: &Image, x: u32, y: u32) -> (c: Color)
    requires
        x < image_size(*img).0,
        y < image_size(*img).1,
    ensures
        c == color_at(image_samples(*img), sample_index(image_size(*img).0 as int, x as int, y as int)),
{
    let p = img.buf.get_pixel(x, y);
    Color { r: p.0[0], g: p.0[1], b: p.0[2], a: p.0[3] }
}

/// Calls `image::RgbaImage::put_pixel`, which panics outside the image.
///
/// Trusted: inside the image the call overwrites the pixel's four samples and
/// nothing else.
#[verifier::external_body]
fn buffer_put_pixel(img: &mut Image, x: u32, y: u32, c: Color)
    requires
        x < image_size(*old(img)).0,
        y < image_size(*old(img)).1,
    ensures
        image_size(*final(img)) == image_size(*old(img)),
        image_samples(*final(img)) == write_color(
            image_samples(*old(img)),
            sample_index(image_size(*old(img)).0 as int, x as int, y as int),
            c,
        ),
{
    img.buf.put_pixel(x, y, image::Rgba([c.r, c.g, c.b, c.a]));
}

/// Calls `clone` on the `image::RgbaImage`.
///
/// Trusted: the copy has the same size and the same samples.
#[verifier::external_body]
fn buffer_clone(img: &Image) -> (copy: Image)
    ensures
        image_size(copy) == image_size(*img),
        image_samples(copy) == image_samples(*img),
{
    Image { buf: img.buf.clone() }
}

/// The mathematical model of an image: its dimensions and the color of each
/// pixel inside them.
pub struct ImageView {
    pub width: nat,
    pub height: nat,
    pub pixels: Map<(int, int), Color>,
}

impl ImageView {
    /// Whether `(x, y)` is a pixel of the image.
    pub open spec fn contains(self, x: int, y: int) -> bool {
        0 <= x < self.width && 0 <= y < self.height
    }

    /// The pixel map is defined exactly on the pixels of the image.
    pub open spec fn wf(self) -> bool {
        forall|k: (int, int)| #[trigger] self.pixels.contains_key(k) <==> self.contains(k.0, k.1)
    }

    /// The image with pixel `(x, y)` set to `c`.
    pub open spec fn put(self, x: int, y: int, c: Color) -> ImageView {
        ImageView { pixels: self.pixels.insert((x, y), c), ..self }
    }
}

impl View for Image {
    type V = ImageView;

    open spec fn view(&self) -> ImageView {
        let size = image_size(*self);
        ImageView {
            width: size.0 as nat,
            height: size.1 as nat,
            pixels: Map::new(
                |k: (int, int)| 0 <= k.0 < size.0 && 0 <= k.1 < size.1,
                |k: (int, int)| color_at(image_samples(*self), sample_index(size.0 as int, k.0, k.1)),
            ),
        }
    }
}

/// Inside a grid the linear index of a pixel is smaller than the pixel count.
pub proof fn lemma_pixel_index_in_range(width: int, height: int, x: int, y: int)
    requires
        0 <= x < width,
        0 <= y < height,
    ensures
        0 <= y * width + x < width * height,
{
    assert(0 <= y * width && (y + 1) * width <= height * width) by (nonlinear_arith)
        requires
            0 <= y < height,
            0 < width,
    ;
    assert((y + 1) * width == y * width + width) by (nonlinear_arith);
    assert(height * width == width * height) by (nonlinear_arith);
}

/// Two pixels of one grid with the same linear index are the same pixel.
pub proof fn lemma_pixel_index_injective(width: int, x1: int, y1: int, x2: int, y2: int)
    requires
        0 <= x1 < width,
        0 <= x2 < width,
        y1 * width + x1 == y2 * width + x2,
    ensures
        x1 == x2,
        y1 == y2,
{
    if y1 < y2 {
        assert((y1 + 1) * width <= y2 * width) by (nonlinear_arith)
            requires
                y1 + 1 <= y2,
                0 < width,
        ;
        assert((y1 + 1) * width == y1 * width + width) by (nonlinear_arith);
    } else if y2 < y1 {
        assert((y2 + 1) * width <= y1 * width) by (nonlinear_arith)
            requires
                y2 + 1 <= y1,
                0 < width,
        ;
        assert((y2 + 1) * width == y2 * width + width) by (nonlinear_arith);
    }
}

impl Image {
    /// The raw samples of the image, four per pixel in row-major order.
    pub open spec fn samples(self) -> Seq<u8> {
        image_samples(self)
    }

    /// Builds an image from raw RGBA samples in row-major order.
    ///
    /// Returns `None` exactly when `data` is too short for the dimensions, or
    /// when the dimensions ask for a row of more bytes than the machine can
    /// address (the row's length does not fit in `usize`).
    pub fn from_raw(width: u32, height: u32, data: Vec<u8>) -> (made: Option<Image>)
        ensures
            made is Some <==> (4 * width <= usize::MAX && 4 * width * height <= data@.len()),
            made matches Some(img) ==> {
                &&& img@.width == width
                &&& img@.height == height
                &&& img.samples() == data@
                &&& forall|x: int, y: int| #[trigger]
                    img@.contains(x, y) ==> img@.pixels[(x, y)] == color_at(
                        data@,
                        sample_index(width as int, x, y),
                    )
            },
    {
        buffer_from_raw(width, height, data)
    }

    /// A copy of the raw samples.
    pub fn to_raw(&self) -> (data: Vec<u8>)
        ensures
            data@ == self.samples(),
    {
        buffer_as_raw(self).clone()
    }

    /// Width and height in pixels.
    pub fn dimensions(&self) -> (size: (u32, u32))
        ensures
            size.0 == self@.width,
            size.1 == self@.height,
            4 * size.0 * size.1 <= self.samples().len(),
    {
        buffer_dimensions(self)
    }

    /// Width in pixels.
    pub fn width(&self) -> (w: u32)
        ensures
            w == self@.width,
    {
        buffer_dimensions(self).0
    }

    /// Height in pixels.
    pub fn height(&self) -> (h: u32)
        ensures
            h == self@.height,
    {
        buffer_dimensions(self).1
    }

    /// The color of the pixel at `(x, y)`, which must lie inside the image.
    pub fn get_pixel(&self, x: u32, y: u32) -> (c: Color)
        requires
            self@.contains(x as int, y as int),
        ensures
            c == self@.pixels[(x as int, y as int)],
    {
        buffer_get_pixel(self, x, y)
    }

    /// The color of the pixel at `(x, y)`, or `None` outside the image.
    pub fn pixel(&self, x: u32, y: u32) -> (found: Option<Color>)
        ensures
            found == if self@.contains(x as int, y as int) {
                Some(self@.pixels[(x as int, y as int)])
            } else {
                None
            },
    {
        let size: (u32, u32) = buffer_dimensions(self);
        if x < size.0 && y < size.1 {
            Some(buffer_get_pixel(self, x, y))
        } else {
            None
        }
    }

    /// Sets the pixel at `(x, y)`, which must lie inside the image, to `c`.
    pub fn put_pixel(&mut self, x: u32, y: u32, c: Color)
        requires
            old(self)@.contains(x as int, y as int),
        ensures
            final(self)@ == old(self)@.put(x as int, y as int, c),
            final(self).samples() == write_color(
                old(self).samples(),
                sample_index(old(self)@.width as int, x as int, y as int),
                c,
            ),
    {
        let size: (u32, u32) = buffer_dimensions(self);
        buffer_put_pixel(self, x, y, c);
        proof {
            let w = size.0 as int;
            let h = size.1 as int;
            let at = sample_index(w, x as int, y as int);
            lemma_pixel_index_in_range(w, h, x as int, y as int);
            assert(4 * size.0 * size.1 == 4 * (w * h)) by (nonlinear_arith)
                requires
                    w == size.0,
                    h == size.1,
            ;
            assert(0 <= at && at + 3 < old(self).samples().len());
            assert forall|k: (int, int)| 0 <= k.0 < w && 0 <= k.1 < h implies #[trigger] self@.pixels[k]
                == old(self)@.put(x as int, y as int, c).pixels[k] by {
                let other = sample_index(w, k.0, k.1);
                lemma_pixel_index_in_range(w, h, k.0, k.1);
                if k != (x as int, y as int) {
                    if k.1 * w + k.0 == y * w + x {
                        lemma_pixel_index_injective(w, k.0, k.1, x as int, y as int);
                    }
                    assert(other + 3 < at || at + 3 < other);
                }
            }
            assert(self@.pixels =~= old(self)@.put(x as int, y as int, c).pixels);
        }
    }
}

impl Clone for Image {
    /// A copy with the same dimensions, pixels and raw samples.
    fn clone(&self) -> (copy: Self)
        ensures
            copy@ == self@,
            copy.samples() == self.samples(),
    {
        buffer_clone(self)
    }
}

} // verus!
