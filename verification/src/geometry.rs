use vstd::prelude::*;

verus! {

/// Ratio of device pixels to logical pixels, held in thousandths so that
/// fractional factors such as 1.5 or 2.0 are exact plain values.
///
/// Two different scalings are derived from one factor, on purpose: the
/// framebuffer dimensions use the full fractional factor, while margin
/// scaling uses the factor truncated to a whole number. Keeping both exactly
/// as stated is part of this adapter's contract with its engine.
#[derive(Clone, Copy, PartialEq, Eq, Structural, Debug)]
pub struct HidpiFactor {
    pub thousandths: u32,
}

impl HidpiFactor {
    /// The factor truncated to a whole number of device pixels per logical
    /// pixel; margin scaling uses this truncated value.
    pub open spec fn spec_whole(self) -> int {
        self.thousandths as int / 1000
    }

    pub fn whole(self) -> (r: u32)
        ensures
            r == self.spec_whole(),
    {
        self.thousandths / 1000
    }
}

/// The content rectangle of a window in device pixels: its origin relative
/// to the framebuffer's top-left corner, and its size.
#[derive(Clone, Copy, PartialEq, Eq, Debug)]
pub struct WindowRect {
    pub origin: (u32, u32),
    pub size: (u32, u32),
}

/// Current window geometry as the host last set it: logical view size,
/// chrome margins (top, right, bottom, left), window position, and the
/// display's HiDPI scale factor.
#[derive(Clone, Copy, Debug)]
pub struct DrawableGeometry {
    pub view_size: (u32, u32),
    pub margins: (u32, u32, u32, u32),
    pub position: (i32, i32),
    pub hidpi_factor: HidpiFactor,
}

impl DrawableGeometry {
    /// Framebuffer width in device pixels: the logical width scaled by the
    /// full fractional HiDPI factor, truncated to an integer.
    pub open spec fn spec_fb_width(self) -> int {
        (self.view_size.0 as int) * (self.hidpi_factor.thousandths as int) / 1000
    }

    /// Framebuffer height in device pixels, scaled like the width.
    pub open spec fn spec_fb_height(self) -> int {
        (self.view_size.1 as int) * (self.hidpi_factor.thousandths as int) / 1000
    }

    /// Left edge of the content rectangle: the left margin scaled by the
    /// truncated HiDPI factor.
    pub open spec fn spec_rect_left(self) -> int {
        (self.margins.3 as int) * self.hidpi_factor.spec_whole()
    }

    /// Top edge of the content rectangle: the top margin scaled by the
    /// truncated HiDPI factor.
    pub open spec fn spec_rect_top(self) -> int {
        (self.margins.0 as int) * self.hidpi_factor.spec_whole()
    }

    /// Width of the content rectangle: framebuffer width minus the scaled
    /// left and right margins.
    pub open spec fn spec_rect_width(self) -> int {
        self.spec_fb_width()
            - ((self.margins.3 as int) + (self.margins.1 as int)) * self.hidpi_factor.spec_whole()
    }

    /// Height of the content rectangle: framebuffer height minus the scaled
    /// top and bottom margins.
    pub open spec fn spec_rect_height(self) -> int {
        self.spec_fb_height()
            - ((self.margins.0 as int) + (self.margins.2 as int)) * self.hidpi_factor.spec_whole()
    }

    /// A geometry the adapter accepts: a positive scale factor, framebuffer
    /// dimensions that fit in device-pixel coordinates, and margins that do
    /// not exceed the scaled view on either axis. Violating the margin bound
    /// is a caller bug, not a recoverable condition.
    pub open spec fn is_valid(self) -> bool {
        &&& self.hidpi_factor.thousandths > 0
        &&& self.spec_fb_width() <= u32::MAX
        &&& self.spec_fb_height() <= u32::MAX
        &&& ((self.margins.3 as int) + (self.margins.1 as int)) * self.hidpi_factor.spec_whole()
            <= self.spec_fb_width()
        &&& ((self.margins.0 as int) + (self.margins.2 as int)) * self.hidpi_factor.spec_whole()
            <= self.spec_fb_height()
    }

    /// Runtime mirror of `is_valid`, for callers outside verified code that
    /// must check a geometry before handing it in.
    pub fn check_valid(&self) -> (r: bool)
        ensures
            r == self.is_valid(),
    {
        let th: u32 = self.hidpi_factor.thousandths;
        if th == 0 {
            return false;
        }
        proof {
            lemma_u32_mul_fits_u64(self.view_size.0, th);
            lemma_u32_mul_fits_u64(self.view_size.1, th);
        }
        let fw: u64 = (self.view_size.0 as u64) * (th as u64) / 1000;
        let fh: u64 = (self.view_size.1 as u64) * (th as u64) / 1000;
        if fw > (u32::MAX as u64) || fh > (u32::MAX as u64) {
            return false;
        }
        let ws: u64 = (th / 1000) as u64;
        proof {
            lemma_margin_sum_mul_fits(self.margins.3 as int, self.margins.1 as int, ws as int);
            lemma_margin_sum_mul_fits(self.margins.0 as int, self.margins.2 as int, ws as int);
        }
        let lr: u64 = ((self.margins.3 as u64) + (self.margins.1 as u64)) * ws;
        let tb: u64 = ((self.margins.0 as u64) + (self.margins.2 as u64)) * ws;
        lr <= fw && tb <= fh
    }

    /// The framebuffer size in device pixels, recomputed from the current
    /// geometry on every call.
    pub fn framebuffer_size(&self) -> (r: (u32, u32))
        requires
            self.is_valid(),
        ensures
            r.0 == self.spec_fb_width(),
            r.1 == self.spec_fb_height(),
    {
        let th: u32 = self.hidpi_factor.thousandths;
        proof {
            lemma_u32_mul_fits_u64(self.view_size.0, th);
            lemma_u32_mul_fits_u64(self.view_size.1, th);
        }
        let fw: u64 = (self.view_size.0 as u64) * (th as u64) / 1000;
        let fh: u64 = (self.view_size.1 as u64) * (th as u64) / 1000;
        (fw as u32, fh as u32)
    }

    /// The content rectangle in device pixels: margins scaled by the
    /// truncated HiDPI factor are cut from the framebuffer, and the origin
    /// is offset by the scaled left and top margins.
    pub fn window_rect(&self) -> (r: WindowRect)
        requires
            self.is_valid(),
        ensures
            r.origin.0 == self.spec_rect_left(),
            r.origin.1 == self.spec_rect_top(),
            r.size.0 == self.spec_rect_width(),
            r.size.1 == self.spec_rect_height(),
    {
        let ws: u32 = self.hidpi_factor.whole();
        let (fw, fh) = self.framebuffer_size();
        let (top_m, right_m, bottom_m, left_m) = self.margins;
        proof {
            lemma_mul_distributes_over_sum(left_m as int, right_m as int, ws as int);
            lemma_mul_distributes_over_sum(top_m as int, bottom_m as int, ws as int);
        }
        let left: u32 = left_m * ws;
        let right: u32 = right_m * ws;
        let top: u32 = top_m * ws;
        let bottom: u32 = bottom_m * ws;
        let width: u32 = fw - left - right;
        let height: u32 = fh - top - bottom;
        WindowRect { origin: (left, top), size: (width, height) }
    }

    /// The logical view size, unscaled.
    pub fn size(&self) -> (r: (u32, u32))
        ensures
            r == self.view_size,
    {
        self.view_size
    }
}

/// The content rectangle never extends past the framebuffer: whenever the
/// margins fit inside the scaled view, the rectangle's origin plus its size
/// stays within the framebuffer dimensions on both axes.
pub proof fn lemma_window_rect_within_framebuffer(g: DrawableGeometry)
    requires
        g.is_valid(),
    ensures
        g.spec_rect_left() + g.spec_rect_width() <= g.spec_fb_width(),
        g.spec_rect_top() + g.spec_rect_height() <= g.spec_fb_height(),
{
    lemma_mul_distributes_over_sum(g.margins.3 as int, g.margins.1 as int, g.hidpi_factor.spec_whole());
    lemma_mul_distributes_over_sum(g.margins.0 as int, g.margins.2 as int, g.hidpi_factor.spec_whole());
    assert((g.margins.1 as int) * g.hidpi_factor.spec_whole() >= 0) by (nonlinear_arith)
        requires g.hidpi_factor.spec_whole() >= 0;
    assert((g.margins.2 as int) * g.hidpi_factor.spec_whole() >= 0) by (nonlinear_arith)
        requires g.hidpi_factor.spec_whole() >= 0;
}

/// A product of two 32-bit values fits in 64 bits.
proof fn lemma_u32_mul_fits_u64(a: u32, b: u32)
    ensures
        (a as int) * (b as int) <= u64::MAX,
        (a as int) * (b as int) >= 0,
{
    assert((a as int) * (b as int) <= (u32::MAX as int) * (u32::MAX as int)) by (nonlinear_arith)
        requires a <= u32::MAX, b <= u32::MAX;
    assert((a as int) * (b as int) >= 0) by (nonlinear_arith)
        requires a >= 0, b >= 0;
}

/// A sum of two margins times a truncated scale factor fits in 64 bits; the
/// factor is a 32-bit value divided by 1000, so it is at most 4294967.
proof fn lemma_margin_sum_mul_fits(a: int, b: int, ws: int)
    requires
        0 <= a <= u32::MAX,
        0 <= b <= u32::MAX,
        0 <= ws <= 4294967,
    ensures
        0 <= (a + b) * ws <= u64::MAX,
{
    assert(0 <= (a + b) * ws <= (u32::MAX as int + u32::MAX as int) * 4294967) by (nonlinear_arith)
        requires 0 <= a <= u32::MAX, 0 <= b <= u32::MAX, 0 <= ws <= 4294967;
}

/// Multiplication distributes over the sum of two margins.
proof fn lemma_mul_distributes_over_sum(a: int, b: int, c: int)
    ensures
        (a + b) * c == a * c + b * c,
{
    assert((a + b) * c == a * c + b * c) by (nonlinear_arith);
}

} // verus!

