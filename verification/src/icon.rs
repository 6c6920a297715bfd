//! Window-icon pixel conversion.
//!
//! The platform icon API consumes straight-alpha 8-bit RGBA.  Embedded
//! image resources arrive in one of three channel layouts and are
//! normalized here; the alpha scaling truncates through integer division,
//! exactly `channel * alpha / 255` per colour channel.

use vstd::prelude::*;

verus! {

/// An embedded bitmap, one of three channel layouts.  `data` holds the
/// rows in order, tightly packed.
#[derive(Clone, Debug, PartialEq, Eq)]
pub enum SharedImageBuffer {
    Rgb8 { width: u32, height: u32, data: Vec<u8> },
    Rgba8 { width: u32, height: u32, data: Vec<u8> },
    Rgba8Premultiplied { width: u32, height: u32, data: Vec<u8> },
}

/// An image resource as the UI runtime hands it over.  Only embedded
/// bitmaps can become window icons; every other source is ignored.
#[derive(Clone, Debug, PartialEq, Eq)]
pub enum ImageInner {
    EmbeddedImage { buffer: SharedImageBuffer },
    Opaque,
}

/// What one colour channel of a premultiplied pixel becomes:
/// `channel * alpha / 255`, truncated.
pub open spec fn spec_scaled_channel(c: u8, a: u8) -> u8 {
    ((c as int) * (a as int) / 255) as u8
}

impl SharedImageBuffer {
    pub open spec fn spec_width(self) -> u32 {
        match self {
            SharedImageBuffer::Rgb8 { width, .. } => width,
            SharedImageBuffer::Rgba8 { width, .. } => width,
            SharedImageBuffer::Rgba8Premultiplied { width, .. } => width,
        }
    }

    pub open spec fn spec_height(self) -> u32 {
        match self {
            SharedImageBuffer::Rgb8 { height, .. } => height,
            SharedImageBuffer::Rgba8 { height, .. } => height,
            SharedImageBuffer::Rgba8Premultiplied { height, .. } => height,
        }
    }

    pub open spec fn spec_data(self) -> Seq<u8> {
        match self {
            SharedImageBuffer::Rgb8 { data, .. } => data@,
            SharedImageBuffer::Rgba8 { data, .. } => data@,
            SharedImageBuffer::Rgba8Premultiplied { data, .. } => data@,
        }
    }

    pub open spec fn spec_bytes_per_pixel(self) -> int {
        match self {
            SharedImageBuffer::Rgb8 { .. } => 3,
            SharedImageBuffer::Rgba8 { .. } => 4,
            SharedImageBuffer::Rgba8Premultiplied { .. } => 4,
        }
    }

    pub open spec fn spec_pixel_count(self) -> int {
        self.spec_width() * self.spec_height()
    }

    /// The data holds exactly one tightly packed pixel per cell, and a
    /// straight-alpha copy still fits in memory.
    pub open spec fn wf(self) -> bool {
        &&& self.spec_data().len() == self.spec_pixel_count() * self.spec_bytes_per_pixel()
        &&& self.spec_pixel_count() * 4 <= usize::MAX
    }

    pub fn width(&self) -> (r: u32)
        ensures
            r == self.spec_width(),
    {
        match self {
            SharedImageBuffer::Rgb8 { width, .. } => *width,
            SharedImageBuffer::Rgba8 { width, .. } => *width,
            SharedImageBuffer::Rgba8Premultiplied { width, .. } => *width,
        }
    }

    pub fn height(&self) -> (r: u32)
        ensures
            r == self.spec_height(),
    {
        match self {
            SharedImageBuffer::Rgb8 { height, .. } => *height,
            SharedImageBuffer::Rgba8 { height, .. } => *height,
            SharedImageBuffer::Rgba8Premultiplied { height, .. } => *height,
        }
    }
}

/// Pixel `i` of the output carries pixel `i` of an RGB source plus an
/// opaque alpha channel.
pub open spec fn rgb_pixel_ok(r: Seq<u8>, d: Seq<u8>, i: int) -> bool {
    &&& r[4 * i] == d[3 * i]
    &&& r[4 * i + 1] == d[3 * i + 1]
    &&& r[4 * i + 2] == d[3 * i + 2]
    &&& r[4 * i + 3] == 255
}

/// Pixel `i` of the output carries pixel `i` of a premultiplied source
/// with each colour channel scaled by `alpha / 255` and the alpha channel
/// passed through.
pub open spec fn premultiplied_pixel_ok(r: Seq<u8>, d: Seq<u8>, i: int) -> bool {
    &&& r[4 * i] == spec_scaled_channel(d[4 * i], d[4 * i + 3])
    &&& r[4 * i + 1] == spec_scaled_channel(d[4 * i + 1], d[4 * i + 3])
    &&& r[4 * i + 2] == spec_scaled_channel(d[4 * i + 2], d[4 * i + 3])
    &&& r[4 * i + 3] == d[4 * i + 3]
}

/// What the straight-alpha RGBA output is for a source buffer:
/// RGB gains an opaque alpha channel, straight RGBA passes through, and
/// premultiplied RGBA has each colour channel scaled by `alpha / 255`
/// with the alpha channel passed through.
pub open spec fn is_straight_rgba_of(r: Seq<u8>, buf: SharedImageBuffer) -> bool {
    let d = buf.spec_data();
    let n = buf.spec_pixel_count();
    &&& r.len() == n * 4
    &&& match buf {
        SharedImageBuffer::Rgb8 { .. } => forall|i: int|
            0 <= i < n ==> #[trigger] rgb_pixel_ok(r, d, i),
        SharedImageBuffer::Rgba8 { .. } => r == d,
        SharedImageBuffer::Rgba8Premultiplied { .. } => forall|i: int|
            0 <= i < n ==> #[trigger] premultiplied_pixel_ok(r, d, i),
    }
}

/// Scales one colour channel of a premultiplied pixel.
fn scaled_channel(c: u8, a: u8) -> (r: u8)
    ensures
        r == spec_scaled_channel(c, a),
{
    proof {
        assert((c as int) * (a as int) <= 255 * 255) by (nonlinear_arith)
            requires
                c <= 255,
                a <= 255,
        ;
    }
    ((c as u32 * a as u32) / 255) as u8
}

/// Normalizes an embedded bitmap to straight-alpha 8-bit RGBA.
pub fn to_straight_rgba(buf: &SharedImageBuffer) -> (r: Vec<u8>)
    requires
        buf.wf(),
    ensures
        is_straight_rgba_of(r@, *buf),
{
    let ghost n = buf.spec_pixel_count();
    match buf {
        SharedImageBuffer::Rgb8 { width, height, data } => {
            proof {
                assert(n * 3 == data@.len());
                assert(n >= 0) by (nonlinear_arith)
                    requires
                        n == *width * *height,
                ;
            }
            let pixels = data.len() / 3;
            proof {
                assert(pixels == n);
            }
            let mut r: Vec<u8> = Vec::new();
            let mut i: usize = 0;
            while i < pixels
                invariant
                    pixels == n,
                    3 * n == data@.len(),
                    4 * n <= usize::MAX,
                    0 <= i <= pixels,
                    r@.len() == 4 * i,
                    forall|k: int| 0 <= k < i ==> #[trigger] rgb_pixel_ok(r@, data@, k),
                decreases pixels - i,
            {
                let ghost r0 = r@;
                proof {
                    assert(3 * i + 2 < data@.len());
                }
                r.push(data[3 * i]);
                r.push(data[3 * i + 1]);
                r.push(data[3 * i + 2]);
                r.push(255);
                proof {
                    assert forall|k: int| 0 <= k < i + 1 implies #[trigger] rgb_pixel_ok(
                        r@,
                        data@,
                        k,
                    ) by {
                        if k < i {
                            assert(rgb_pixel_ok(r0, data@, k));
                        }
                    }
                }
                i += 1;
            }
            r
        },
        SharedImageBuffer::Rgba8 { data, .. } => data.clone(),
        SharedImageBuffer::Rgba8Premultiplied { width, height, data } => {
            proof {
                assert(n >= 0) by (nonlinear_arith)
                    requires
                        n == *width * *height,
                ;
            }
            let pixels = data.len() / 4;
            proof {
                assert(pixels == n);
            }
            let mut r: Vec<u8> = Vec::new();
            let mut i: usize = 0;
            while i < pixels
                invariant
                    pixels == n,
                    4 * n == data@.len(),
                    4 * n <= usize::MAX,
                    0 <= i <= pixels,
                    r@.len() == 4 * i,
                    forall|k: int| 0 <= k < i ==> #[trigger] premultiplied_pixel_ok(r@, data@, k),
                decreases pixels - i,
            {
                let ghost r0 = r@;
                proof {
                    assert(4 * i + 3 < data@.len());
                }
                let alpha = data[4 * i + 3];
                r.push(scaled_channel(data[4 * i], alpha));
                r.push(scaled_channel(data[4 * i + 1], alpha));
                r.push(scaled_channel(data[4 * i + 2], alpha));
                r.push(alpha);
                proof {
                    assert forall|k: int| 0 <= k < i + 1 implies #[trigger] premultiplied_pixel_ok(
                        r@,
                        data@,
                        k,
                    ) by {
                        if k < i {
                            assert(premultiplied_pixel_ok(r0, data@, k));
                        }
                    }
                }
                i += 1;
            }
            r
        },
    }
}

} // verus!
