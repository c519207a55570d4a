use vstd::prelude::*;

use crate::ppm::rgb::RGB;

verus! {

/// The color stored in the three bytes of `bytes` that start at `offset`.
pub open spec fn pixel_at(bytes: Seq<u8>, offset: int) -> RGB {
    RGB { r: bytes[offset], g: bytes[offset + 1], b: bytes[offset + 2] }
}

/// `bytes` with the three bytes that start at `offset` set to the channels of `c`.
pub open spec fn with_pixel(bytes: Seq<u8>, offset: int, c: RGB) -> Seq<u8> {
    bytes.update(offset, c.r).update(offset + 1, c.g).update(offset + 2, c.b)
}

/// The decimal digits of `n` in ASCII, without leading zeros.
pub open spec fn decimal(n: nat) -> Seq<u8>
    decreases n,
{
    if n < 10 {
        seq![(48 + n) as u8]
    } else {
        decimal(n / 10).push((48 + n % 10) as u8)
    }
}

/// The header line `"P6 {width} {height} 255\n"`.
pub open spec fn header(width: nat, height: nat) -> Seq<u8> {
    seq![80u8, 54, 32] + decimal(width) + seq![32u8] + decimal(height) + seq![32u8, 50, 53, 53, 10]
}

/// Appends the decimal digits of `n` to `out`.
fn push_decimal(out: &mut Vec<u8>, n: u32)
    ensures
        final(out)@ == old(out)@ + decimal(n as nat),
    decreases n,
{
    if n >= 10 {
        push_decimal(out, n / 10);
    }
    // the ASCII digit
    out.push(48u8 + (n % 10) as u8);
    assert(out@ =~= old(out)@ + decimal(n as nat));
}

/// Appends the bytes of `s` to `out`.
fn push_all(out: &mut Vec<u8>, s: &[u8])
    ensures
        final(out)@ == old(out)@ + s@,
{
    let mut i: usize = 0;
    while i < s.len()
        invariant
            i <= s@.len(),
            out@ == old(out)@ + s@.subrange(0, i as int),
        decreases s@.len() - i,
    {
        out.push(s[i]);
        i = i + 1;
        assert(out@ =~= old(out)@ + s@.subrange(0, i as int));
    }
    assert(s@.subrange(0, i as int) =~= s@);
}

/// A pixel buffer of `height` rows of `width` pixels, three bytes (R, G, B) per pixel,
/// row by row from the top.
pub struct PPM {
    height: u32,
    width: u32,
    data: Vec<u8>,
}

impl PPM {
    pub closed spec fn height_spec(&self) -> u32 {
        self.height
    }

    pub closed spec fn width_spec(&self) -> u32 {
        self.width
    }

    /// The buffer's bytes.
    pub closed spec fn bytes(&self) -> Seq<u8> {
        self.data@
    }

    /// The number of bytes, `3 * height * width`.
    pub open spec fn size_spec(&self) -> int {
        3 * self.height_spec() * self.width_spec()
    }

    /// The size fits in a `u32` and the buffer holds exactly that many bytes.
    pub open spec fn wf(&self) -> bool {
        &&& self.size_spec() <= u32::MAX
        &&& self.bytes().len() == self.size_spec()
    }

    /// Where pixel `(x, y)` starts: `3 * width * y + 3 * x`.
    pub open spec fn offset_spec(&self, x: u32, y: u32) -> int {
        3 * self.width_spec() * y + 3 * x
    }

    /// Whether pixel `(x, y)` can be read and written: it lies inside the declared
    /// width and height.
    pub open spec fn in_bounds(&self, x: u32, y: u32) -> bool {
        x < self.width_spec() && y < self.height_spec()
    }

    /// The color of pixel `(x, y)`.
    pub open spec fn pixel_spec(&self, x: u32, y: u32) -> RGB {
        pixel_at(self.bytes(), self.offset_spec(x, y))
    }

    /// A buffer of `height * width` black pixels.
    pub fn new(height: u32, width: u32) -> (p: PPM)
        requires
            3 * height * width <= u32::MAX,
        ensures
            p.wf(),
            p.height_spec() == height,
            p.width_spec() == width,
            p.bytes() == Seq::new(p.size_spec() as nat, |i: int| 0u8),
    {
        let h = height as u64;
        let w = width as u64;
        let size = 3 * h * w;
        let buffer = vec![0u8; size as usize];
        let p = PPM { height: height, width: width, data: buffer };
        assert(p.bytes() =~= Seq::new(p.size_spec() as nat, |i: int| 0u8));
        p
    }

    /// A buffer of `height * width` black pixels, or `None` where its size,
    /// `3 * height * width` bytes, does not fit in a `u32`.
    pub fn try_new(height: u32, width: u32) -> (r: Option<PPM>)
        ensures
            r is Some <==> 3 * height * width <= u32::MAX,
            r matches Some(p) ==> {
                &&& p.wf()
                &&& p.height_spec() == height
                &&& p.width_spec() == width
                &&& p.bytes() == Seq::new(p.size_spec() as nat, |i: int| 0u8)
            },
    {
        let h = height as u128;
        let w = width as u128;
        assert(3 * h * w <= 3 * 0xffff_ffffu128 * 0xffff_ffffu128) by (nonlinear_arith)
            requires
                h <= 0xffff_ffff,
                w <= 0xffff_ffff,
        ;
        if 3 * h * w <= u32::MAX as u128 {
            Some(PPM::new(height, width))
        } else {
            None
        }
    }

    fn get_offset(&self, x: u32, y: u32) -> (r: Option<usize>)
        requires
            self.wf(),
        ensures
            r == (if self.in_bounds(x, y) {
                Some(self.offset_spec(x, y) as usize)
            } else {
                None
            }),
    {
        if x < self.width && y < self.height {
            proof {
                self.lemma_pixel_fits(x, y);
            }
            let w = self.width as u64;
            let offset: u64 = 3 * w * (y as u64) + 3 * (x as u64);
            Some(offset as usize)
        } else {
            None
        }
    }

    /// The color of pixel `(x, y)`, or `None` where it lies outside the buffer's
    /// width and height.
    pub fn get_pixel(&self, x: u32, y: u32) -> (r: Option<RGB>)
        requires
            self.wf(),
        ensures
            r == (if self.in_bounds(x, y) {
                Some(self.pixel_spec(x, y))
            } else {
                None
            }),
    {
        match self.get_offset(x, y) {
            Some(offset) => {
                proof {
                    self.lemma_pixel_fits(x, y);
                }
                let r = self.data[offset + 0];
                let g = self.data[offset + 1];
                let b = self.data[offset + 2];
                Some(RGB { r: r, g: g, b: b })
            },
            None => None,
        }
    }

    /// Sets pixel `(x, y)` to `color` and returns true; where it lies outside the
    /// buffer's width and height, returns false and changes nothing.
    pub fn set_pixel(&mut self, x: u32, y: u32, color: RGB) -> (r: bool)
        requires
            old(self).wf(),
        ensures
            r == old(self).in_bounds(x, y),
            final(self).wf(),
            final(self).height_spec() == old(self).height_spec(),
            final(self).width_spec() == old(self).width_spec(),
            final(self).bytes() == (if r {
                with_pixel(old(self).bytes(), old(self).offset_spec(x, y), color)
            } else {
                old(self).bytes()
            }),
    {
        match self.get_offset(x, y) {
            Some(offset) => {
                proof {
                    self.lemma_pixel_fits(x, y);
                }
                self.data.set(offset + 0, color.r);
                self.data.set(offset + 1, color.g);
                self.data.set(offset + 2, color.b);
                true
            },
            None => false,
        }
    }

    /// The image as bytes: the header `"P6 {width} {height} 255\n"` followed by the
    /// buffer.
    pub fn encode(&self) -> (r: Vec<u8>)
        requires
            self.wf(),
        ensures
            r@ == header(self.width_spec() as nat, self.height_spec() as nat) + self.bytes(),
    {
        let mut out: Vec<u8> = Vec::new();
        // "P6 "
        out.push(80u8);
        out.push(54u8);
        out.push(32u8);
        push_decimal(&mut out, self.width);
        out.push(32u8);
        push_decimal(&mut out, self.height);
        // " 255\n"
        out.push(32u8);
        out.push(50u8);
        out.push(53u8);
        out.push(53u8);
        out.push(10u8);
        assert(out@ =~= header(self.width as nat, self.height as nat));
        push_all(&mut out, self.data.as_slice());
        out
    }

    /// Writing a pixel and reading it back gives the color written: where `after`
    /// is `before` as `set_pixel(x, y, c)` leaves it, pixel `(x, y)` of `after` is in
    /// bounds and holds `c`.
    pub proof fn lemma_set_then_get(before: &PPM, after: &PPM, x: u32, y: u32, c: RGB)
        requires
            before.wf(),
            before.in_bounds(x, y),
            after.height_spec() == before.height_spec(),
            after.width_spec() == before.width_spec(),
            after.bytes() == with_pixel(before.bytes(), before.offset_spec(x, y), c),
        ensures
            after.in_bounds(x, y),
            after.pixel_spec(x, y) == c,
    {
        before.lemma_pixel_fits(x, y);
    }

    /// The pixel one past the end of the first row and the one past the end of the
    /// first column are both out of bounds.
    pub proof fn lemma_one_past_end(&self)
        ensures
            !self.in_bounds(self.width_spec(), 0),
            !self.in_bounds(0, self.height_spec()),
    {
    }

    /// The three bytes of an in-bounds pixel lie inside the buffer.
    proof fn lemma_pixel_fits(&self, x: u32, y: u32)
        requires
            self.wf(),
            self.in_bounds(x, y),
        ensures
            self.offset_spec(x, y) + 3 <= self.size_spec(),
    {
        let w = self.width_spec() as int;
        let h = self.height_spec() as int;
        assert(self.offset_spec(x, y) + 3 <= 3 * h * w) by (nonlinear_arith)
            requires
                self.offset_spec(x, y) == 3 * w * y + 3 * x,
                0 <= x < w,
                0 <= y < h,
        {
            assert(w * y + x + 1 <= w * y + w);
            assert(w * y + w == w * (y + 1));
            assert(w * (y + 1) <= w * h);
        }
    }
}

} // verus!
