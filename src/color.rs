//! Packed pixel formats and the channel view that blending reads.

use vstd::prelude::*;

verus! {

/// A color made of red, green and blue channels, each read in the native
/// bit depth of its format.
pub trait RgbColor: Copy + Sized {
    spec fn spec_r(&self) -> u8;

    spec fn spec_g(&self) -> u8;

    spec fn spec_b(&self) -> u8;

    /// Returns the red channel value.
    fn r(&self) -> (v: u8)
        ensures
            v == self.spec_r(),
    ;

    /// Returns the green channel value.
    fn g(&self) -> (v: u8)
        ensures
            v == self.spec_g(),
    ;

    /// Returns the blue channel value.
    fn b(&self) -> (v: u8)
        ensures
            v == self.spec_b(),
    ;

    /// A color is determined by its three channel values.
    proof fn lemma_channels_determine(x: Self, y: Self)
        requires
            x.spec_r() == y.spec_r(),
            x.spec_g() == y.spec_g(),
            x.spec_b() == y.spec_b(),
        ensures
            x == y,
    ;
}

/// 16-bit color with 5 bits of red, 6 of green and 5 of blue, packed into one
/// word with red in the high bits: `RRRRRGGGGGGBBBBB`.
#[derive(Clone, Copy, Debug, PartialEq, Eq)]
pub struct Rgb565 {
    raw: u16,
}

impl Rgb565 {
    /// The packed storage word.
    pub closed spec fn spec_storage(&self) -> u16 {
        self.raw
    }

    /// Creates a color; channel bits above each channel's width are dropped.
    pub fn new(r: u8, g: u8, b: u8) -> (c: Self)
        ensures
            c.spec_r() == r & 0x1f,
            c.spec_g() == g & 0x3f,
            c.spec_b() == b & 0x1f,
    {
        let raw: u16 = (((r & 0x1f) as u16) << 11) | (((g & 0x3f) as u16) << 5) | ((b & 0x1f) as u16);
        proof {
            lemma_unpack_565(r, g, b);
        }
        Rgb565 { raw }
    }

    /// Creates a color from its packed storage word.
    pub fn from_storage(raw: u16) -> (c: Self)
        ensures
            c.spec_storage() == raw,
    {
        Rgb565 { raw }
    }

    /// Returns the packed storage word.
    pub fn into_storage(&self) -> (raw: u16)
        ensures
            raw == self.spec_storage(),
    {
        self.raw
    }
}

/// Packing three channels into a 5-6-5 word and reading them back yields
/// the channels cut to their widths.
proof fn lemma_unpack_565(r: u8, g: u8, b: u8)
    ensures
        ({
            let raw = (((r & 0x1f) as u16) << 11) | (((g & 0x3f) as u16) << 5) | ((b & 0x1f) as u16);
            &&& ((raw >> 11) & 0x1f) as u8 == r & 0x1f
            &&& ((raw >> 5) & 0x3f) as u8 == g & 0x3f
            &&& (raw & 0x1f) as u8 == b & 0x1f
        }),
{
    assert(({
        let raw = (((r & 0x1f) as u16) << 11) | (((g & 0x3f) as u16) << 5) | ((b & 0x1f) as u16);
        &&& ((raw >> 11) & 0x1f) as u8 == r & 0x1f
        &&& ((raw >> 5) & 0x3f) as u8 == g & 0x3f
        &&& (raw & 0x1f) as u8 == b & 0x1f
    })) by (bit_vector);
}

impl RgbColor for Rgb565 {
    open spec fn spec_r(&self) -> u8 {
        ((self.spec_storage() >> 11) & 0x1f) as u8
    }

    open spec fn spec_g(&self) -> u8 {
        ((self.spec_storage() >> 5) & 0x3f) as u8
    }

    open spec fn spec_b(&self) -> u8 {
        (self.spec_storage() & 0x1f) as u8
    }

    fn r(&self) -> (v: u8) {
        ((self.raw >> 11) & 0x1f) as u8
    }

    fn g(&self) -> (v: u8) {
        ((self.raw >> 5) & 0x3f) as u8
    }

    fn b(&self) -> (v: u8) {
        (self.raw & 0x1f) as u8
    }

    proof fn lemma_channels_determine(x: Self, y: Self) {
        let (p, q) = (x.raw, y.raw);
        assert(((p >> 11) & 0x1f) as u8 == ((q >> 11) & 0x1f) as u8 && ((p >> 5) & 0x3f) as u8
            == ((q >> 5) & 0x3f) as u8 && (p & 0x1f) as u8 == (q & 0x1f) as u8 ==> p == q)
            by (bit_vector);
    }
}

/// 24-bit color with 8 bits in each of red, green and blue.
#[derive(Clone, Copy, Debug, PartialEq, Eq)]
pub struct Rgb888 {
    r: u8,
    g: u8,
    b: u8,
}

impl Rgb888 {
    /// Creates a color from its three channels.
    pub fn new(r: u8, g: u8, b: u8) -> (c: Self)
        ensures
            c.spec_r() == r,
            c.spec_g() == g,
            c.spec_b() == b,
    {
        Rgb888 { r, g, b }
    }
}

impl RgbColor for Rgb888 {
    closed spec fn spec_r(&self) -> u8 {
        self.r
    }

    closed spec fn spec_g(&self) -> u8 {
        self.g
    }

    closed spec fn spec_b(&self) -> u8 {
        self.b
    }

    fn r(&self) -> (v: u8) {
        self.r
    }

    fn g(&self) -> (v: u8) {
        self.g
    }

    fn b(&self) -> (v: u8) {
        self.b
    }

    proof fn lemma_channels_determine(x: Self, y: Self) {
    }
}

/// 18-bit color with 6 bits in each of red, green and blue; each channel is
/// kept in a byte of its own and lies in `0..=63`.
#[derive(Clone, Copy, Debug, PartialEq, Eq)]
pub struct Rgb666 {
    r: u8,
    g: u8,
    b: u8,
}

impl Rgb666 {
    #[verifier::type_invariant]
    spec fn channels_in_range(&self) -> bool {
        self.r < 64 && self.g < 64 && self.b < 64
    }

    /// Creates a color; channel bits above the sixth are dropped.
    pub fn new(r: u8, g: u8, b: u8) -> (c: Self)
        ensures
            c.spec_r() == r & 0x3f,
            c.spec_g() == g & 0x3f,
            c.spec_b() == b & 0x3f,
    {
        assert((r & 0x3f) < 64 && (g & 0x3f) < 64 && (b & 0x3f) < 64) by (bit_vector);
        Rgb666 { r: r & 0x3f, g: g & 0x3f, b: b & 0x3f }
    }
}

impl RgbColor for Rgb666 {
    closed spec fn spec_r(&self) -> u8 {
        self.r
    }

    closed spec fn spec_g(&self) -> u8 {
        self.g
    }

    closed spec fn spec_b(&self) -> u8 {
        self.b
    }

    /// Returns the channel value, which lies in `0..=63`.
    fn r(&self) -> (v: u8)
        ensures
            v < 64,
    {
        proof {
            use_type_invariant(self);
        }
        self.r
    }

    /// Returns the channel value, which lies in `0..=63`.
    fn g(&self) -> (v: u8)
        ensures
            v < 64,
    {
        proof {
            use_type_invariant(self);
        }
        self.g
    }

    /// Returns the channel value, which lies in `0..=63`.
    fn b(&self) -> (v: u8)
        ensures
            v < 64,
    {
        proof {
            use_type_invariant(self);
        }
        self.b
    }

    proof fn lemma_channels_determine(x: Self, y: Self) {
    }
}

} // verus!
