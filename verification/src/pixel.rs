//! Pixel buffers and the pure pixel transformations of the capture path:
//! conversion from the native blue/green/red/alpha byte order to canonical
//! red/green/blue/alpha with forced opacity, and sub-rectangle extraction.

use vstd::prelude::*;

verus! {

/// Byte offset of channel `c` of the pixel at `(x, y)` in a row-major
/// buffer that is `width` pixels wide with four bytes per pixel.
pub open spec fn pixel_idx(width: int, x: int, y: int, c: int) -> int {
    (y * width + x) * 4 + c
}

/// The byte index of any channel of an in-bounds pixel lies inside the
/// buffer.
pub proof fn lemma_pixel_idx_bound(width: int, height: int, x: int, y: int, c: int)
    requires
        0 <= x < width,
        0 <= y < height,
        0 <= c < 4,
    ensures
        0 <= pixel_idx(width, x, y, c),
        pixel_idx(width, x, y, c) < 4 * width * height,
{
    assert((y * width + x) * 4 + c < 4 * width * height) by (nonlinear_arith)
        requires
            0 <= x < width,
            0 <= y < height,
            0 <= c < 4,
    ;
    assert(0 <= (y * width + x) * 4 + c) by (nonlinear_arith)
        requires
            0 <= x,
            0 <= y,
            0 <= c,
            0 <= width,
    ;
}

/// A decoded frame: `width * height` pixels, row-major, four bytes per
/// pixel in red, green, blue, alpha order.
#[derive(Clone)]
pub struct PixelBuffer {
    width: u32,
    height: u32,
    data: Vec<u8>,
}

impl PixelBuffer {
    /// Width in pixels.
    pub closed spec fn spec_width(&self) -> u32 {
        self.width
    }

    /// Height in pixels.
    pub closed spec fn spec_height(&self) -> u32 {
        self.height
    }

    /// The raw bytes, row-major, four per pixel.
    pub closed spec fn bytes(&self) -> Seq<u8> {
        self.data@
    }

    /// The byte count matches the declared dimensions.
    pub open spec fn wf(&self) -> bool {
        self.bytes().len() == 4 * (self.spec_width() as int) * (self.spec_height() as int)
    }

    /// Channel `c` of the pixel at `(x, y)`.
    pub open spec fn byte_at(&self, x: int, y: int, c: int) -> u8 {
        self.bytes()[pixel_idx(self.spec_width() as int, x, y, c)]
    }

    /// Builds a buffer from raw bytes; fails exactly when the byte count
    /// does not match the declared dimensions.
    pub fn from_raw(width: u32, height: u32, data: Vec<u8>) -> (r: Option<PixelBuffer>)
        ensures
            r is Some <==> data@.len() == 4 * (width as int) * (height as int),
            r matches Some(b) ==> b.wf() && b.spec_width() == width && b.spec_height() == height
                && b.bytes() == data@,
    {
        proof {
            assert(4 * (width as int) * (height as int) < 0x100000000000000000000000000000000)
                by (nonlinear_arith)
                requires
                    width <= 0xffffffffu32,
                    height <= 0xffffffffu32,
            ;
        }
        let expected: u128 = 4u128 * (width as u128) * (height as u128);
        if (data.len() as u128) == expected {
            Some(PixelBuffer { width, height, data })
        } else {
            None
        }
    }

    pub fn width(&self) -> (w: u32)
        ensures
            w == self.spec_width(),
    {
        self.width
    }

    pub fn height(&self) -> (h: u32)
        ensures
            h == self.spec_height(),
    {
        self.height
    }

    /// The raw bytes, cloned out as a plain vector.
    pub fn to_bytes(&self) -> (r: Vec<u8>)
        ensures
            r@ == self.bytes(),
    {
        vstd::slice::slice_to_vec(self.data.as_slice())
    }

    /// The four channels of the pixel at `(x, y)`.
    pub fn get_pixel(&self, x: u32, y: u32) -> (p: (u8, u8, u8, u8))
        requires
            self.wf(),
            x < self.spec_width(),
            y < self.spec_height(),
        ensures
            p.0 == self.byte_at(x as int, y as int, 0),
            p.1 == self.byte_at(x as int, y as int, 1),
            p.2 == self.byte_at(x as int, y as int, 2),
            p.3 == self.byte_at(x as int, y as int, 3),
    {
        proof {
            assert(self.data.len() == self.bytes().len());
            lemma_pixel_idx_bound(
                self.spec_width() as int,
                self.spec_height() as int,
                x as int,
                y as int,
                3,
            );
        }
        let base: usize = ((y as usize) * (self.width as usize) + (x as usize)) * 4;
        (self.data[base], self.data[base + 1], self.data[base + 2], self.data[base + 3])
    }

    /// Overwrites the pixel at `(x, y)` with the given channels, leaving
    /// every other byte unchanged.
    pub fn put_pixel(&mut self, x: u32, y: u32, px: (u8, u8, u8, u8))
        requires
            old(self).wf(),
            x < old(self).spec_width(),
            y < old(self).spec_height(),
        ensures
            final(self).wf(),
            final(self).spec_width() == old(self).spec_width(),
            final(self).spec_height() == old(self).spec_height(),
            final(self).byte_at(x as int, y as int, 0) == px.0,
            final(self).byte_at(x as int, y as int, 1) == px.1,
            final(self).byte_at(x as int, y as int, 2) == px.2,
            final(self).byte_at(x as int, y as int, 3) == px.3,
            forall|i: int|
                0 <= i < old(self).bytes().len()
                    && !(pixel_idx(old(self).spec_width() as int, x as int, y as int, 0) <= i
                    < pixel_idx(old(self).spec_width() as int, x as int, y as int, 0) + 4)
                    ==> final(self).bytes()[i] == old(self).bytes()[i],
    {
        proof {
            assert(self.data.len() == self.bytes().len());
            lemma_pixel_idx_bound(
                self.spec_width() as int,
                self.spec_height() as int,
                x as int,
                y as int,
                3,
            );
        }
        let base: usize = ((y as usize) * (self.width as usize) + (x as usize)) * 4;
        self.data[base] = px.0;
        self.data[base + 1] = px.1;
        self.data[base + 2] = px.2;
        self.data[base + 3] = px.3;
    }

    /// Copies out the sub-rectangle of `w * h` pixels whose top-left corner
    /// is at `(x, y)`.  The caller must have clamped the rectangle to the
    /// buffer bounds beforehand.
    pub fn crop(&self, x: u32, y: u32, w: u32, h: u32) -> (out: PixelBuffer)
        requires
            self.wf(),
            x + w <= self.spec_width(),
            y + h <= self.spec_height(),
        ensures
            out.wf(),
            out.spec_width() == w,
            out.spec_height() == h,
            forall|cx: int, cy: int, c: int|
                0 <= cx < w && 0 <= cy < h && 0 <= c < 4 ==> out.byte_at(cx, cy, c)
                    == self.byte_at(x + cx, y + cy, c),
    {
        let ghost sw = self.spec_width() as int;
        proof {
            assert(self.data.len() == self.bytes().len());
        }
        let mut data: Vec<u8> = Vec::new();
        let mut cy: u32 = 0;
        while cy < h
            invariant
                self.wf(),
                self.bytes().len() <= usize::MAX,
                x + w <= self.spec_width(),
                y + h <= self.spec_height(),
                sw == self.spec_width() as int,
                0 <= cy <= h,
                data@.len() == 4 * ((cy as int) * (w as int)),
                forall|px: int, py: int, c: int|
                    0 <= px < w && 0 <= py < cy && 0 <= c < 4 ==> data@[pixel_idx(
                        w as int,
                        px,
                        py,
                        c,
                    )] == self.byte_at(x + px, y + py, c),
            decreases h - cy,
        {
            let mut cx: u32 = 0;
            while cx < w
                invariant
                    self.wf(),
                    self.bytes().len() <= usize::MAX,
                    x + w <= self.spec_width(),
                    y + h <= self.spec_height(),
                    sw == self.spec_width() as int,
                    0 <= cy < h,
                    0 <= cx <= w,
                    data@.len() == 4 * ((cy as int) * (w as int) + (cx as int)),
                    forall|px: int, py: int, c: int|
                        0 <= px < w && 0 <= py < cy && 0 <= c < 4 ==> data@[pixel_idx(
                            w as int,
                            px,
                            py,
                            c,
                        )] == self.byte_at(x + px, y + py, c),
                    forall|px: int, c: int|
                        0 <= px < cx && 0 <= c < 4 ==> data@[pixel_idx(w as int, px, cy as int, c)]
                            == self.byte_at(x + px, y + cy, c),
                decreases w - cx,
            {
                proof {
                    lemma_pixel_idx_bound(sw, self.spec_height() as int, x + cx, y + cy, 3);
                    assert forall|px: int, py: int, c: int|
                        0 <= px < w && 0 <= py < cy && 0 <= c < 4 implies pixel_idx(
                        w as int,
                        px,
                        py,
                        c,
                    ) < 4 * ((cy as int) * (w as int) + (cx as int)) by {
                        assert((py * w + px) * 4 + c < 4 * (cy * w + cx)) by (nonlinear_arith)
                            requires
                                0 <= px < w,
                                0 <= py < cy,
                                0 <= c < 4,
                                0 <= cx,
                        ;
                    }
                }
                let base: usize = (((y + cy) as usize) * (self.width as usize) + ((x + cx)
                    as usize)) * 4;
                data.push(self.data[base]);
                data.push(self.data[base + 1]);
                data.push(self.data[base + 2]);
                data.push(self.data[base + 3]);
                cx = cx + 1;
            }
            proof {
                assert(4 * ((cy as int) * (w as int) + (w as int)) == 4 * ((cy as int + 1) * (
                w as int))) by (nonlinear_arith);
            }
            cy = cy + 1;
        }
        proof {
            assert(4 * ((h as int) * (w as int)) == 4 * (w as int) * (h as int))
                by (nonlinear_arith);
        }
        PixelBuffer { width: w, height: h, data }
    }
}

/// What byte `i` of a buffer holds after normalization from the native
/// blue/green/red/alpha order: red and blue swap places, green stays, and
/// the alpha channel is forced to full opacity.
pub open spec fn swizzled_byte(s: Seq<u8>, i: int) -> u8 {
    if i % 4 == 0 {
        s[i + 2]
    } else if i % 4 == 1 {
        s[i]
    } else if i % 4 == 2 {
        s[i - 2]
    } else {
        255u8
    }
}

/// Normalizes raw native bytes in place: every complete four-byte pixel has
/// its red and blue channels swapped and its alpha forced to 255; a trailing
/// partial pixel is left as it is.
pub fn bgra_to_rgba(data: &mut Vec<u8>)
    ensures
        final(data)@.len() == old(data)@.len(),
        forall|i: int|
            0 <= i < 4 * (old(data)@.len() as int / 4) ==> final(data)@[i] == swizzled_byte(
                old(data)@,
                i,
            ),
        forall|i: int|
            4 * (old(data)@.len() as int / 4) <= i < old(data)@.len() ==> final(data)@[i] == old(
                data,
            )@[i],
{
    let pixels: usize = data.len() / 4;
    let mut k: usize = 0;
    while k < pixels
        invariant
            pixels == old(data)@.len() as int / 4,
            4 * (pixels as int) <= old(data)@.len(),
            old(data)@.len() <= usize::MAX,
            data@.len() == old(data)@.len(),
            0 <= k <= pixels,
            forall|i: int| 0 <= i < 4 * k ==> data@[i] == swizzled_byte(old(data)@, i),
            forall|i: int| 4 * k <= i < data@.len() ==> data@[i] == old(data)@[i],
        decreases pixels - k,
    {
        let base: usize = 4 * k;
        let b = data[base];
        let r = data[base + 2];
        data[base] = r;
        data[base + 2] = b;
        data[base + 3] = 255;
        proof {
            assert((4 * k as int) % 4 == 0);
            assert((4 * k as int + 1) % 4 == 1);
            assert((4 * k as int + 2) % 4 == 2);
            assert((4 * k as int + 3) % 4 == 3);
        }
        k = k + 1;
    }
}

} // verus!
