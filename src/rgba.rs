//! A color paired with an alpha byte, and source-over blending onto an
//! opaque background in the background's own format.

use vstd::prelude::*;
use vstd::arithmetic::div_mod::{lemma_div_is_ordered, lemma_div_by_multiple};
use vstd::arithmetic::mul::lemma_mul_inequality;
use crate::color::{RgbColor, Rgb565, Rgb666, Rgb888};

verus! {

/// Integer division by 255 that truncates toward zero, as signed machine
/// division does.
pub open spec fn div255_toward_zero(x: int) -> int {
    if x >= 0 {
        x / 255
    } else {
        -((-x) / 255)
    }
}

/// One channel of a source-over blend: `bg + (fg - bg) * alpha / 255`, taken
/// in the channel's native depth with the quotient truncated toward zero.
pub open spec fn blend_channel(fg: u8, bg: u8, alpha: u8) -> int {
    bg + div255_toward_zero((fg - bg) * alpha)
}

/// `d * a / 255` lies between 0 and `d` for `0 <= a <= 255`.
proof fn lemma_scaled_delta_bounds(d: int, a: int)
    requires
        0 <= d,
        0 <= a <= 255,
    ensures
        0 <= (d * a) / 255 <= d,
{
    lemma_mul_inequality(0, a, d);
    lemma_mul_inequality(a, 255, d);
    lemma_div_is_ordered(0, d * a, 255);
    lemma_div_is_ordered(d * a, 255 * d, 255);
    assert(d * 255 == 255 * d) by (nonlinear_arith);
    lemma_div_by_multiple(d, 255);
}

/// A blended channel lies between the foreground and background values.
pub proof fn lemma_blend_channel_between(fg: u8, bg: u8, alpha: u8)
    ensures
        fg <= bg ==> fg <= blend_channel(fg, bg, alpha) <= bg,
        bg <= fg ==> bg <= blend_channel(fg, bg, alpha) <= fg,
{
    if fg >= bg {
        lemma_scaled_delta_bounds(fg - bg, alpha as int);
    } else {
        lemma_scaled_delta_bounds(bg - fg, alpha as int);
        assert((fg - bg) * alpha == -((bg - fg) * alpha)) by (nonlinear_arith);
    }
}

/// Computes `delta * a / 255` exactly, with shifts and adds in place of a
/// division.
fn mul_blend_u8(delta: u32, a: u32) -> (q: u32)
    requires
        delta <= 255,
        a <= 255,
    ensures
        q == (delta * a) / 255,
        q <= delta,
{
    proof {
        lemma_mul_inequality(delta as int, 255, a as int);
        lemma_mul_inequality(a as int, 255, 255);
        lemma_scaled_delta_bounds(delta as int, a as int);
    }
    let t: u32 = delta * a;
    assert(t <= 65025);
    assert((t >> 8) <= t) by (bit_vector);
    assert(t <= 65025 ==> (((t + 1) as u32 + (t >> 8)) as u32 >> 8) == t / 255) by (bit_vector);
    (t + 1 + (t >> 8)) >> 8
}

/// Blends one channel in its native depth.
fn blend_u8(fg: u8, bg: u8, alpha: u8) -> (c: u8)
    ensures
        c == blend_channel(fg, bg, alpha),
{
    if fg >= bg {
        let q = mul_blend_u8((fg - bg) as u32, alpha as u32);
        bg + q as u8
    } else {
        let q = mul_blend_u8((bg - fg) as u32, alpha as u32);
        proof {
            assert((fg - bg) * alpha == -((bg - fg) * alpha)) by (nonlinear_arith);
        }
        bg - q as u8
    }
}

/// A color together with an alpha byte: 0 is fully transparent, 255 fully
/// opaque, and values between are the opacity `alpha / 255`.
#[derive(Clone, Copy, Debug, PartialEq, Eq)]
pub struct Rgba<C: RgbColor>(C, u8);

impl<C: RgbColor> Rgba<C> {
    /// The opaque color.
    pub closed spec fn spec_color(&self) -> C {
        self.0
    }

    /// The alpha byte.
    pub closed spec fn spec_alpha(&self) -> u8 {
        self.1
    }

    /// Creates a color with alpha.
    pub fn new(color: C, alpha: u8) -> (c: Self)
        ensures
            c.spec_color() == color,
            c.spec_alpha() == alpha,
    {
        Rgba(color, alpha)
    }

    /// Returns the opaque color.
    pub fn rgb(&self) -> (c: C)
        ensures
            c == self.spec_color(),
    {
        self.0
    }

    /// Returns the red channel of the color.
    pub fn r(&self) -> (v: u8)
        ensures
            v == self.spec_color().spec_r(),
    {
        self.0.r()
    }

    /// Returns the green channel of the color.
    pub fn g(&self) -> (v: u8)
        ensures
            v == self.spec_color().spec_g(),
    {
        self.0.g()
    }

    /// Returns the blue channel of the color.
    pub fn b(&self) -> (v: u8)
        ensures
            v == self.spec_color().spec_b(),
    {
        self.0.b()
    }

    /// Returns the alpha byte (`0..=255`).
    pub fn a(&self) -> (v: u8)
        ensures
            v == self.spec_alpha(),
    {
        self.1
    }
}

/// `out` is what blending `fg` over `bg` gives: the background itself when
/// `fg` is transparent, `fg`'s color when it is opaque, and otherwise each
/// channel blended on its own.
pub open spec fn is_blend<C: RgbColor>(fg: Rgba<C>, bg: C, out: C) -> bool {
    let a = fg.spec_alpha();
    let c = fg.spec_color();
    &&& a == 0 ==> out == bg
    &&& a == 255 ==> out == c
    &&& out.spec_r() == blend_channel(c.spec_r(), bg.spec_r(), a)
    &&& out.spec_g() == blend_channel(c.spec_g(), bg.spec_g(), a)
    &&& out.spec_b() == blend_channel(c.spec_b(), bg.spec_b(), a)
}

/// Source-over blending of `self` onto an opaque background of type `T`.
pub trait Blend<T> {
    /// `out` is the result of blending `self` over `bg`.
    spec fn blends_to(&self, bg: T, out: T) -> bool;

    /// Blends `self` over `bg`.
    fn blend(&self, bg: T) -> (out: T)
        ensures
            self.blends_to(bg, out),
    ;
}

impl Blend<Rgb565> for Rgba<Rgb565> {
    open spec fn blends_to(&self, bg: Rgb565, out: Rgb565) -> bool {
        is_blend(*self, bg, out)
    }

    fn blend(&self, bg: Rgb565) -> (out: Rgb565) {
        let a = self.a();
        if a == 0 {
            return bg;
        }
        if a == 255 {
            return self.rgb();
        }
        let f: u16 = self.rgb().into_storage();
        let b: u16 = bg.into_storage();

        let fr = ((f >> 11) & 0x1f) as u8;
        let fg = ((f >> 5) & 0x3f) as u8;
        let fb = (f & 0x1f) as u8;

        let br = ((b >> 11) & 0x1f) as u8;
        let bgc = ((b >> 5) & 0x3f) as u8;
        let bb = (b & 0x1f) as u8;

        let r = blend_u8(fr, br, a);
        let g = blend_u8(fg, bgc, a);
        let bl = blend_u8(fb, bb, a);
        proof {
            lemma_blend_channel_between(fr, br, a);
            lemma_blend_channel_between(fg, bgc, a);
            lemma_blend_channel_between(fb, bb, a);
            assert(fr < 32 && fg < 64 && fb < 32 && br < 32 && bgc < 64 && bb < 32) by (bit_vector)
                requires
                    fr == ((f >> 11) & 0x1f) as u8,
                    fg == ((f >> 5) & 0x3f) as u8,
                    fb == (f & 0x1f) as u8,
                    br == ((b >> 11) & 0x1f) as u8,
                    bgc == ((b >> 5) & 0x3f) as u8,
                    bb == (b & 0x1f) as u8,
            ;
        }
        let out: u16 = ((r as u16) << 11) | ((g as u16) << 5) | (bl as u16);
        proof {
            assert(r < 32 && g < 64 && bl < 32 ==> ((out >> 11) & 0x1f) as u8 == r && ((out >> 5)
                & 0x3f) as u8 == g && (out & 0x1f) as u8 == bl) by (bit_vector)
                requires
                    out == ((r as u16) << 11) | ((g as u16) << 5) | (bl as u16),
            ;
        }
        Rgb565::from_storage(out)
    }
}

impl Blend<Rgb888> for Rgba<Rgb888> {
    open spec fn blends_to(&self, bg: Rgb888, out: Rgb888) -> bool {
        is_blend(*self, bg, out)
    }

    fn blend(&self, bg: Rgb888) -> (out: Rgb888) {
        let a = self.a();
        if a == 0 {
            return bg;
        }
        if a == 255 {
            return self.rgb();
        }
        let r = blend_u8(self.r(), bg.r(), a);
        let g = blend_u8(self.g(), bg.g(), a);
        let b = blend_u8(self.b(), bg.b(), a);
        Rgb888::new(r, g, b)
    }
}

impl Blend<Rgb666> for Rgba<Rgb666> {
    open spec fn blends_to(&self, bg: Rgb666, out: Rgb666) -> bool {
        is_blend(*self, bg, out)
    }

    fn blend(&self, bg: Rgb666) -> (out: Rgb666) {
        let a = self.a();
        if a == 0 {
            return bg;
        }
        if a == 255 {
            return self.rgb();
        }
        let c = self.rgb();
        let (fr, fg, fb) = (c.r(), c.g(), c.b());
        let (br, bgc, bb) = (bg.r(), bg.g(), bg.b());
        let r = blend_u8(fr, br, a);
        let g = blend_u8(fg, bgc, a);
        let b = blend_u8(fb, bb, a);
        proof {
            lemma_blend_channel_between(fr, br, a);
            lemma_blend_channel_between(fg, bgc, a);
            lemma_blend_channel_between(fb, bb, a);
            assert(r < 64 && g < 64 && b < 64 ==> (r & 0x3f) == r && (g & 0x3f) == g && (b & 0x3f)
                == b) by (bit_vector);
        }
        Rgb666::new(r, g, b)
    }
}

} // verus!
