//! Properties that every blend result has, stated over the blend relation.

use vstd::prelude::*;
use vstd::arithmetic::div_mod::{lemma_div_is_ordered, lemma_fundamental_div_mod, lemma_mod_pos_bound};
use vstd::arithmetic::mul::lemma_mul_inequality;
use crate::color::{RgbColor, Rgb666, Rgb888};
use crate::rgba::{blend_channel, div255_toward_zero, is_blend, Rgba};

verus! {

/// The channel with index `i`: 0 is red, 1 green, 2 blue.
pub open spec fn channel<C: RgbColor>(c: C, i: int) -> u8 {
    if i == 0 {
        c.spec_r()
    } else if i == 1 {
        c.spec_g()
    } else {
        c.spec_b()
    }
}

/// The interpolation formula itself gives back the background at alpha 0
/// and the foreground at alpha 255, so the shortcuts taken at those two
/// values are exact and no rounding drift occurs.
pub proof fn lemma_fast_paths_exact(fg: u8, bg: u8)
    ensures
        blend_channel(fg, bg, 0) == bg,
        blend_channel(fg, bg, 255) == fg,
{
}

/// A transparent foreground leaves the background as it is, and an opaque
/// one replaces it by its own color, channel for channel.
pub proof fn lemma_blend_at_extremes<C: RgbColor>(fg: Rgba<C>, bg: C, out: C)
    requires
        is_blend(fg, bg, out),
    ensures
        fg.spec_alpha() == 0 ==> out == bg,
        fg.spec_alpha() == 255 ==> out == fg.spec_color() && out.spec_r()
            == fg.spec_color().spec_r() && out.spec_g() == fg.spec_color().spec_g()
            && out.spec_b() == fg.spec_color().spec_b(),
{
}

/// Blending a given foreground over a given background has one result.
pub proof fn lemma_blend_result_unique<C: RgbColor>(fg: Rgba<C>, bg: C, out1: C, out2: C)
    requires
        is_blend(fg, bg, out1),
        is_blend(fg, bg, out2),
    ensures
        out1 == out2,
{
    C::lemma_channels_determine(out1, out2);
}

/// For a fixed foreground and background value, raising alpha moves the
/// blended channel toward the foreground and never back.
pub proof fn lemma_blend_channel_monotone(fg: u8, bg: u8, a1: u8, a2: u8)
    requires
        a1 <= a2,
    ensures
        fg >= bg ==> blend_channel(fg, bg, a1) <= blend_channel(fg, bg, a2),
        fg <= bg ==> blend_channel(fg, bg, a1) >= blend_channel(fg, bg, a2),
{
    if fg > bg {
        let d = fg - bg;
        lemma_mul_inequality(a1 as int, a2 as int, d);
        assert(a1 * d == d * a1 && a2 * d == d * a2) by (nonlinear_arith);
        lemma_div_is_ordered(d * a1, d * a2, 255);
    } else if fg < bg {
        let d = bg - fg;
        lemma_mul_inequality(a1 as int, a2 as int, d);
        assert(a1 * d == d * a1 && a2 * d == d * a2) by (nonlinear_arith);
        lemma_div_is_ordered(d * a1, d * a2, 255);
        assert((fg - bg) * a1 == -(d * a1) && (fg - bg) * a2 == -(d * a2)) by (nonlinear_arith)
            requires
                d == bg - fg,
        ;
        assert(0 <= d * a1) by (nonlinear_arith)
            requires
                0 <= d,
                0 <= a1,
        ;
        assert(div255_toward_zero((fg - bg) * a1) == -((d * a1) / 255));
        assert(div255_toward_zero((fg - bg) * a2) == -((d * a2) / 255));
    }
}

/// Blending one color over one background at two alphas: in each channel
/// where the color is above the background the higher alpha gives a value
/// at least as high, and where it is below, one at least as low.
pub proof fn lemma_blend_monotone_in_alpha<C: RgbColor>(
    fg1: Rgba<C>,
    fg2: Rgba<C>,
    bg: C,
    out1: C,
    out2: C,
    i: int,
)
    requires
        fg1.spec_color() == fg2.spec_color(),
        fg1.spec_alpha() <= fg2.spec_alpha(),
        is_blend(fg1, bg, out1),
        is_blend(fg2, bg, out2),
        0 <= i < 3,
    ensures
        channel(fg1.spec_color(), i) >= channel(bg, i) ==> channel(out1, i) <= channel(out2, i),
        channel(fg1.spec_color(), i) <= channel(bg, i) ==> channel(out1, i) >= channel(out2, i),
{
    lemma_blend_channel_monotone(
        channel(fg1.spec_color(), i),
        channel(bg, i),
        fg1.spec_alpha(),
        fg2.spec_alpha(),
    );
}

/// Each blended channel depends only on that channel's foreground and
/// background values and on alpha: two blends at one alpha whose channels
/// `i` and `j` hold the same inputs give the same value in those channels,
/// so permuting the channels of the inputs permutes the result alike.
pub proof fn lemma_channel_independence<C: RgbColor>(
    fg1: Rgba<C>,
    bg1: C,
    out1: C,
    fg2: Rgba<C>,
    bg2: C,
    out2: C,
    i: int,
    j: int,
)
    requires
        is_blend(fg1, bg1, out1),
        is_blend(fg2, bg2, out2),
        fg1.spec_alpha() == fg2.spec_alpha(),
        0 <= i < 3,
        0 <= j < 3,
        channel(fg1.spec_color(), i) == channel(fg2.spec_color(), j),
        channel(bg1, i) == channel(bg2, j),
    ensures
        channel(out1, i) == channel(out2, j),
{
}

/// Scaling by four before dividing by 255 loses at most three units against
/// scaling the quotient.
proof fn lemma_div255_scaled(y: int)
    requires
        0 <= y,
    ensures
        4 * (y / 255) <= (4 * y) / 255 <= 4 * (y / 255) + 3,
{
    lemma_fundamental_div_mod(y, 255);
    lemma_fundamental_div_mod(4 * y, 255);
    lemma_mod_pos_bound(y, 255);
    lemma_mod_pos_bound(4 * y, 255);
}

/// A channel blended at 8 bits from values four times those of a 6-bit
/// channel lies within three of four times the 6-bit result.
pub proof fn lemma_blend_channel_scaled(fg: u8, bg: u8, alpha: u8)
    requires
        fg < 64,
        bg < 64,
    ensures
        -3 <= blend_channel((4 * fg) as u8, (4 * bg) as u8, alpha) - 4 * blend_channel(fg, bg, alpha)
            <= 3,
{
    let x = (fg - bg) * alpha;
    assert(((4 * fg) as u8 - (4 * bg) as u8) * alpha == 4 * x) by (nonlinear_arith)
        requires
            x == (fg - bg) * alpha,
            fg < 64,
            bg < 64,
    ;
    if x >= 0 {
        lemma_div255_scaled(x);
    } else {
        lemma_div255_scaled(-x);
        assert(-(4 * x) == 4 * (-x));
    }
    assert(div255_toward_zero(4 * x) - 4 * div255_toward_zero(x) <= 3);
}

/// Blending proportional colors in the 8-bit and the 6-bit format at one
/// alpha agrees up to the coarser format's step: where each 8-bit input
/// channel is four times the 6-bit one, each 8-bit result channel lies
/// within three of four times the 6-bit result.
pub proof fn lemma_cross_format_888_666(
    fg8: Rgba<Rgb888>,
    bg8: Rgb888,
    out8: Rgb888,
    fg6: Rgba<Rgb666>,
    bg6: Rgb666,
    out6: Rgb666,
    i: int,
)
    requires
        is_blend(fg8, bg8, out8),
        is_blend(fg6, bg6, out6),
        fg8.spec_alpha() == fg6.spec_alpha(),
        0 <= i < 3,
        channel(fg8.spec_color(), i) == 4 * channel(fg6.spec_color(), i),
        channel(bg8, i) == 4 * channel(bg6, i),
    ensures
        -3 <= channel(out8, i) - 4 * channel(out6, i) <= 3,
{
    lemma_blend_channel_scaled(channel(fg6.spec_color(), i), channel(bg6, i), fg6.spec_alpha());
}

} // verus!
