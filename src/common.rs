use vstd::prelude::*;
use crate::color::Color;
use crate::error::YasError;

verus! {

/// A rectangle given by its top-left corner and its size.
#[derive(Debug, Clone, Copy, PartialEq, Eq, Structural)]
pub struct PixelRect {
    pub left: i32,
    pub top: i32,
    pub width: i32,
    pub height: i32,
}

/// A rectangle given by its four edges; `right` and `bottom` are exclusive.
#[derive(Debug, Clone, Copy, PartialEq, Eq, Structural)]
pub struct PixelRectBound {
    pub left: i32,
    pub top: i32,
    pub right: i32,
    pub bottom: i32,
}

/// `a / b` rounded to the nearest integer, halves away from zero.
pub open spec fn round_div(a: int, b: int) -> int
    recommends
        b > 0,
{
    if a >= 0 {
        (2 * a + b) / (2 * b)
    } else {
        -((-2 * a + b) / (2 * b))
    }
}

/// Executable `round_div` on 128-bit values.
pub fn round_div_i128(a: i128, b: i128) -> (r: i128)
    requires
        b > 0,
        -0x1_0000_0000_0000_0000_0000 <= a <= 0x1_0000_0000_0000_0000_0000,
        b <= 0x1_0000_0000_0000_0000_0000,
    ensures
        r == round_div(a as int, b as int),
{
    if a >= 0 {
        (2 * a + b) / (2 * b)
    } else {
        let n: i128 = b - 2 * a;
        let q: i128 = n / (2 * b);
        assert(0 <= q <= n) by (nonlinear_arith)
            requires n >= 0, b > 0, q as int == n as int / (2 * b as int);
        -q
    }
}

pub open spec fn fits_i32(v: int) -> bool {
    i32::MIN <= v <= i32::MAX
}

impl PixelRect {
    /// Scales every field by `num / den`, rounding each to the nearest pixel.
    pub fn scale(&mut self, num: u32, den: u32)
        requires
            den > 0,
            fits_i32(round_div(old(self).left as int * num as int, den as int)),
            fits_i32(round_div(old(self).top as int * num as int, den as int)),
            fits_i32(round_div(old(self).width as int * num as int, den as int)),
            fits_i32(round_div(old(self).height as int * num as int, den as int)),
        ensures
            final(self).left as int == round_div(old(self).left as int * num as int, den as int),
            final(self).top as int == round_div(old(self).top as int * num as int, den as int),
            final(self).width as int == round_div(old(self).width as int * num as int, den as int),
            final(self).height as int == round_div(old(self).height as int * num as int, den as int),
    {
        proof {
            assert(-0x8000_0000 * 0x1_0000_0000 <= self.left as int * num as int <= 0x8000_0000 * 0x1_0000_0000) by (nonlinear_arith)
                requires -0x8000_0000 <= self.left as int <= 0x8000_0000, 0 <= num as int <= 0x1_0000_0000;
            assert(-0x8000_0000 * 0x1_0000_0000 <= self.top as int * num as int <= 0x8000_0000 * 0x1_0000_0000) by (nonlinear_arith)
                requires -0x8000_0000 <= self.top as int <= 0x8000_0000, 0 <= num as int <= 0x1_0000_0000;
            assert(-0x8000_0000 * 0x1_0000_0000 <= self.width as int * num as int <= 0x8000_0000 * 0x1_0000_0000) by (nonlinear_arith)
                requires -0x8000_0000 <= self.width as int <= 0x8000_0000, 0 <= num as int <= 0x1_0000_0000;
            assert(-0x8000_0000 * 0x1_0000_0000 <= self.height as int * num as int <= 0x8000_0000 * 0x1_0000_0000) by (nonlinear_arith)
                requires -0x8000_0000 <= self.height as int <= 0x8000_0000, 0 <= num as int <= 0x1_0000_0000;
        }
        self.left = round_div_i128(self.left as i128 * num as i128, den as i128) as i32;
        self.top = round_div_i128(self.top as i128 * num as i128, den as i128) as i32;
        self.width = round_div_i128(self.width as i128 * num as i128, den as i128) as i32;
        self.height = round_div_i128(self.height as i128 * num as i128, den as i128) as i32;
    }

    /// The same rectangle moved by `(shift_x, shift_y)`.
    pub fn shifted(rect: &PixelRect, shift_x: i32, shift_y: i32) -> (r: PixelRect)
        requires
            fits_i32(rect.left + shift_x),
            fits_i32(rect.top + shift_y),
        ensures
            r == (PixelRect {
                left: (rect.left + shift_x) as i32,
                top: (rect.top + shift_y) as i32,
                width: rect.width,
                height: rect.height,
            }),
    {
        PixelRect {
            left: rect.left + shift_x,
            top: rect.top + shift_y,
            width: rect.width,
            height: rect.height,
        }
    }

    /// The same rectangle given by its edges.
    pub fn to_bound(&self) -> (r: PixelRectBound)
        requires
            fits_i32(self.left + self.width),
            fits_i32(self.top + self.height),
        ensures
            r == (PixelRectBound {
                left: self.left,
                top: self.top,
                right: (self.left + self.width) as i32,
                bottom: (self.top + self.height) as i32,
            }),
    {
        PixelRectBound {
            left: self.left,
            top: self.top,
            right: self.left + self.width,
            bottom: self.top + self.height,
        }
    }
}

impl PixelRectBound {
    /// The same rectangle given by its corner and size.
    pub fn to_rect(&self) -> (r: PixelRect)
        requires
            fits_i32(self.right - self.left),
            fits_i32(self.bottom - self.top),
        ensures
            r == (PixelRect {
                left: self.left,
                top: self.top,
                width: (self.right - self.left) as i32,
                height: (self.bottom - self.top) as i32,
            }),
    {
        PixelRect {
            left: self.left,
            top: self.top,
            width: self.right - self.left,
            height: self.bottom - self.top,
        }
    }
}

/// A captured screen region: 4 bytes per pixel in blue, green, red, alpha
/// order, with the bottom row first.
pub struct RawCaptureImage {
    pub data: Vec<u8>,
    pub w: u32,
    pub h: u32,
}

/// Offset of the first byte of pixel `(x, y)`, counting `y` from the top.
pub open spec fn pixel_offset(w: int, h: int, x: int, y: int) -> int {
    ((h - 1 - y) * w + x) * 4
}

proof fn lemma_pixel_offset_in_range(w: int, h: int, x: int, y: int)
    requires
        0 <= x < w,
        0 <= y < h,
    ensures
        0 <= (h - 1 - y) * w,
        (h - 1 - y) * w + x + 1 <= w * h,
        0 <= pixel_offset(w, h, x, y),
        pixel_offset(w, h, x, y) + 4 <= w * h * 4,
{
    let row = h - 1 - y;
    assert(0 <= row < h);
    assert(0 <= row * w) by (nonlinear_arith)
        requires 0 <= row, 0 <= w;
    assert(row * w + x + 1 <= w * h) by (nonlinear_arith)
        requires 0 <= row <= h - 1, 0 <= x < w;
}

impl RawCaptureImage {
    /// The buffer holds exactly `w * h` pixels.
    pub open spec fn wf(&self) -> bool {
        self.data@.len() == self.w as int * self.h as int * 4
    }

    /// The colour of pixel `(x, y)` of a well-formed image, `y` from the top.
    pub open spec fn color_at(&self, x: int, y: int) -> Color {
        let p = pixel_offset(self.w as int, self.h as int, x, y);
        Color(self.data@[p + 2], self.data@[p + 1], self.data@[p])
    }

    /// The colour at `(x, y)`, or an error when the point lies outside.
    pub fn get_color(&self, x: u32, y: u32) -> (r: Result<Color, YasError>)
        requires
            self.wf(),
        ensures
            (x < self.w && y < self.h) ==> r == Ok::<Color, YasError>(self.color_at(x as int, y as int)),
            !(x < self.w && y < self.h) ==> r == Err::<Color, YasError>(YasError::PixelOutOfBounds),
    {
        if x >= self.w || y >= self.h {
            return Err(YasError::PixelOutOfBounds);
        }
        proof {
            lemma_pixel_offset_in_range(self.w as int, self.h as int, x as int, y as int);
        }
        let row: usize = (self.h - 1 - y) as usize;
        let n: usize = self.data.len();
        let p: usize = (row * self.w as usize + x as usize) * 4;
        Ok(Color(self.data[p + 2], self.data[p + 1], self.data[p]))
    }

    /// Paints pixel `(x, y)`; fails, leaving the image as it was, when the
    /// point lies outside.
    pub fn set_color(&mut self, x: u32, y: u32, color: &Color) -> (r: Result<(), YasError>)
        requires
            old(self).wf(),
        ensures
            final(self).wf(),
            final(self).w == old(self).w,
            final(self).h == old(self).h,
            !(x < old(self).w && y < old(self).h) ==> r == Err::<(), YasError>(YasError::PixelOutOfBounds) && final(self).data@ == old(self).data@,
            (x < old(self).w && y < old(self).h) ==> {
                let p = pixel_offset(old(self).w as int, old(self).h as int, x as int, y as int);
                &&& r == Ok::<(), YasError>(())
                &&& final(self).data@ == old(self).data@.update(p, color.2).update(p + 1, color.1).update(p + 2, color.0)
            },
    {
        if x >= self.w || y >= self.h {
            return Err(YasError::PixelOutOfBounds);
        }
        proof {
            lemma_pixel_offset_in_range(self.w as int, self.h as int, x as int, y as int);
        }
        let row: usize = (self.h - 1 - y) as usize;
        let n: usize = self.data.len();
        let p: usize = (row * self.w as usize + x as usize) * 4;
        self.data.set(p, color.2);
        self.data.set(p + 1, color.1);
        self.data.set(p + 2, color.0);
        Ok(())
    }
}

} // verus!
