//! Display space, image space and the mapping between them.
//!
//! Display coordinates are whole numbers of display units, measured from the
//! top-left corner of the widget that shows the image. Image coordinates are
//! exact fractions of a pixel, so that mapping a display point into the image
//! loses nothing and the test whether a pixel lies beyond a mapped point is
//! decided without rounding.

use vstd::prelude::*;

verus! {

/// A point of the display, in display units from the widget's top-left corner.
#[derive(Clone, Copy, Debug, PartialEq, Eq, Structural)]
pub struct DisplayPoint {
    pub x: i64,
    pub y: i64,
}

/// A point of the image plane: the pixel coordinates `(x / scale, y / scale)`.
#[derive(Clone, Copy, Debug, PartialEq, Eq, Structural)]
pub struct ImagePoint {
    pub x: i128,
    pub y: i128,
    pub scale: u32,
}

impl ImagePoint {
    /// The point stands for a pair of numbers: its denominator is positive.
    pub open spec fn wf(self) -> bool {
        self.scale > 0
    }

    /// The point's horizontal coordinate is exactly `n`.
    pub open spec fn has_x(self, n: int) -> bool {
        self.wf() && self.x == n * self.scale
    }

    /// The point's vertical coordinate is exactly `n`.
    pub open spec fn has_y(self, n: int) -> bool {
        self.wf() && self.y == n * self.scale
    }

    /// Both coordinates of the point are strictly smaller than those of the
    /// pixel `(x, y)`.
    pub open spec fn precedes(self, x: int, y: int) -> bool {
        self.x < x * self.scale && self.y < y * self.scale
    }

    /// Both coordinates of the point are strictly greater than those of the
    /// pixel `(x, y)`.
    pub open spec fn follows(self, x: int, y: int) -> bool {
        x * self.scale < self.x && y * self.scale < self.y
    }

    /// The point at the whole pixel coordinates `(x, y)`.
    pub fn whole(x: i64, y: i64) -> (p: ImagePoint)
        ensures
            p == (ImagePoint { x: x as i128, y: y as i128, scale: 1 }),
            p.has_x(x as int),
            p.has_y(y as int),
    {
        ImagePoint { x: x as i128, y: y as i128, scale: 1 }
    }

    /// Whether the point lies strictly to the left of and above the pixel
    /// `(x, y)`.
    pub fn precedes_pixel(&self, x: u32, y: u32) -> (r: bool)
        ensures
            r == self.precedes(x as int, y as int),
    {
        proof {
            lemma_product_bound(x as int, self.scale as int);
            lemma_product_bound(y as int, self.scale as int);
        }
        let scale: i128 = self.scale as i128;
        self.x < (x as i128) * scale && self.y < (y as i128) * scale
    }

    /// Whether the point lies strictly to the right of and below the pixel
    /// `(x, y)`.
    pub fn follows_pixel(&self, x: u32, y: u32) -> (r: bool)
        ensures
            r == self.follows(x as int, y as int),
    {
        proof {
            lemma_product_bound(x as int, self.scale as int);
            lemma_product_bound(y as int, self.scale as int);
        }
        let scale: i128 = self.scale as i128;
        (x as i128) * scale < self.x && (y as i128) * scale < self.y
    }
}

/// The ratio between image pixels and display units: `image_width /
/// displayed_width`, kept as the two widths. One ratio serves both axes.
#[derive(Clone, Copy, Debug, PartialEq, Eq, Structural)]
pub struct Scale {
    pub image_width: u32,
    pub displayed_width: u32,
}

impl Scale {
    /// The ratio exists: the displayed width is positive.
    pub open spec fn wf(self) -> bool {
        self.displayed_width > 0
    }

    /// The image-space point `ratio * p`.
    pub open spec fn image_point(self, p: DisplayPoint) -> ImagePoint {
        ImagePoint {
            x: (self.image_width * p.x) as i128,
            y: (self.image_width * p.y) as i128,
            scale: self.displayed_width,
        }
    }

    /// The ratio of an image `image_width` pixels wide that is shown
    /// `displayed_width` display units wide, or `None` when nothing is shown.
    pub fn new(image_width: u32, displayed_width: u32) -> (made: Option<Scale>)
        ensures
            made == if displayed_width > 0 {
                Some(Scale { image_width, displayed_width })
            } else {
                None
            },
    {
        if displayed_width > 0 {
            Some(Scale { image_width, displayed_width })
        } else {
            None
        }
    }

    /// Maps a display point into image space: each coordinate is multiplied
    /// by the ratio.
    pub fn to_image_space(&self, p: DisplayPoint) -> (q: ImagePoint)
        ensures
            q == self.image_point(p),
            q.x == self.image_width * p.x,
            q.y == self.image_width * p.y,
            q.scale == self.displayed_width,
    {
        proof {
            lemma_product_bound(self.image_width as int, p.x as int);
            lemma_product_bound(self.image_width as int, p.y as int);
        }
        let width: i128 = self.image_width as i128;
        ImagePoint { x: width * (p.x as i128), y: width * (p.y as i128), scale: self.displayed_width }
    }
}

/// The full displayed width maps to the full image width: the display point
/// whose horizontal coordinate is the displayed width lands exactly on the
/// image-space coordinate `image_width`, whatever the ratio.
pub proof fn lemma_scale_round_trip(scale: Scale, y: i64)
    requires
        scale.wf(),
    ensures
        scale.image_point(DisplayPoint { x: scale.displayed_width as i64, y }).has_x(
            scale.image_width as int,
        ),
{
    lemma_product_bound(scale.image_width as int, scale.displayed_width as int);
}

/// The product of a 32-bit unsigned number and a 64-bit number fits in 128
/// bits with room to spare.
pub proof fn lemma_product_bound(a: int, b: int)
    requires
        0 <= a <= 0xffff_ffff,
        -0x8000_0000_0000_0000 <= b <= 0xffff_ffff_ffff_ffff,
    ensures
        -0x8000_0000_0000_0000_0000_0000 <= a * b <= 0x1_0000_0000_0000_0000_0000_0000,
{
    assert(a * b <= 0xffff_ffff * 0xffff_ffff_ffff_ffff) by (nonlinear_arith)
        requires
            0 <= a <= 0xffff_ffff,
            b <= 0xffff_ffff_ffff_ffff,
    ;
    assert(a * b >= 0xffff_ffff * -0x8000_0000_0000_0000) by (nonlinear_arith)
        requires
            0 <= a <= 0xffff_ffff,
            -0x8000_0000_0000_0000 <= b,
    ;
}

} // verus!
