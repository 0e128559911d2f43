use rgba_blend::color::{Rgb565, Rgb666, Rgb888, RgbColor};
use rgba_blend::rgba::{Blend, Rgba};

fn expected(fg: u8, bg: u8, alpha: u8) -> u8 {
    let d = fg as i32 - bg as i32;
    (bg as i32 + d * alpha as i32 / 255) as u8
}

fn channels<C: RgbColor>(c: C) -> (u8, u8, u8) {
    (c.r(), c.g(), c.b())
}

#[test]
fn accessors_return_parts() {
    let c = Rgba::new(Rgb888::new(10, 20, 30), 40);
    assert_eq!(c.rgb(), Rgb888::new(10, 20, 30));
    assert_eq!(c.r(), 10);
    assert_eq!(c.g(), 20);
    assert_eq!(c.b(), 30);
    assert_eq!(c.a(), 40);
    let d = Rgba::new(Rgb565::new(31, 0, 7), 255);
    assert_eq!((d.r(), d.g(), d.b(), d.a()), (31, 0, 7, 255));
}

#[test]
fn rgb565_packs_red_high() {
    let c = Rgb565::new(0x1f, 0, 0);
    assert_eq!(c.into_storage(), 0xf800);
    let c = Rgb565::new(0, 0x3f, 0);
    assert_eq!(c.into_storage(), 0x07e0);
    let c = Rgb565::new(0, 0, 0x1f);
    assert_eq!(c.into_storage(), 0x001f);
    let c = Rgb565::from_storage(0x1234);
    assert_eq!(c.into_storage(), 0x1234);
    assert_eq!(channels(c), (0x02, 0x11, 0x14));
}

#[test]
fn constructors_drop_excess_bits() {
    assert_eq!(channels(Rgb565::new(0xff, 0xff, 0xff)), (31, 63, 31));
    assert_eq!(channels(Rgb565::new(0x20, 0x40, 0x21)), (0, 0, 1));
    assert_eq!(channels(Rgb666::new(0xff, 64, 65)), (63, 0, 1));
    assert_eq!(channels(Rgb888::new(0xff, 64, 65)), (255, 64, 65));
}

#[test]
fn transparent_keeps_background() {
    let bg = Rgb888::new(1, 2, 3);
    assert_eq!(Rgba::new(Rgb888::new(200, 100, 50), 0).blend(bg), bg);
    let bg = Rgb565::new(3, 40, 17);
    assert_eq!(Rgba::new(Rgb565::new(31, 63, 31), 0).blend(bg), bg);
    let bg = Rgb666::new(5, 6, 7);
    assert_eq!(Rgba::new(Rgb666::new(63, 0, 63), 0).blend(bg), bg);
}

#[test]
fn opaque_gives_foreground() {
    let bgs = [Rgb888::new(0, 0, 0), Rgb888::new(255, 255, 255), Rgb888::new(9, 200, 77)];
    for bg in bgs {
        let c = Rgb888::new(200, 100, 50);
        assert_eq!(Rgba::new(c, 255).blend(bg), c);
    }
    let c = Rgb565::new(17, 33, 2);
    for raw in [0u16, 0xffff, 0x8421] {
        assert_eq!(Rgba::new(c, 255).blend(Rgb565::from_storage(raw)), c);
    }
    let c = Rgb666::new(1, 62, 30);
    assert_eq!(Rgba::new(c, 255).blend(Rgb666::new(63, 0, 0)), c);
}

#[test]
fn midpoint_red_888() {
    let out = Rgba::new(Rgb888::new(200, 0, 0), 128).blend(Rgb888::new(0, 0, 0));
    assert_eq!(out.r(), 100);
    assert_eq!(channels(out), (100, 0, 0));
}

#[test]
fn boundary_values_565() {
    let out = Rgba::new(Rgb565::new(31, 63, 31), 128).blend(Rgb565::new(0, 0, 0));
    assert_eq!(channels(out), (15, 31, 15));
    assert_eq!(out.into_storage(), (15 << 11) | (31 << 5) | 15);
    let out = Rgba::new(Rgb565::new(0, 0, 0), 128).blend(Rgb565::new(31, 63, 31));
    assert_eq!(channels(out), (16, 32, 16));
    for a in 0..=255u8 {
        let out = Rgba::new(Rgb565::new(31, 63, 31), a).blend(Rgb565::new(0, 0, 0));
        let (r, g, b) = channels(out);
        assert!(r <= 31 && g <= 63 && b <= 31);
        assert_eq!(Rgb565::new(r, g, b), out);
    }
}

#[test]
fn mirror_images_truncate_toward_zero() {
    for a in 0..=255u8 {
        let up = Rgba::new(Rgb888::new(255, 255, 255), a).blend(Rgb888::new(0, 0, 0));
        let down = Rgba::new(Rgb888::new(0, 0, 0), a).blend(Rgb888::new(255, 255, 255));
        assert_eq!(up.r() as u16 + down.r() as u16, 255);
        assert_eq!(up.r(), (255u32 * a as u32 / 255) as u8);
    }
    let out = Rgba::new(Rgb888::new(0, 0, 0), 100).blend(Rgb888::new(255, 1, 200));
    assert_eq!(channels(out), (155, 1, 122));
}

#[test]
fn matches_integer_formula_888() {
    for fg in (0..=255u32).step_by(5) {
        for bg in (0..=255u32).step_by(3) {
            for a in 0..=255u32 {
                let (f, b, a) = (fg as u8, bg as u8, a as u8);
                let out = Rgba::new(Rgb888::new(f, b, f), a).blend(Rgb888::new(b, f, 255 - b));
                assert_eq!(channels(out), (expected(f, b, a), expected(b, f, a), expected(f, 255 - b, a)));
            }
        }
    }
}

#[test]
fn matches_integer_formula_666() {
    for fg in 0..64u8 {
        for bg in 0..64u8 {
            for a in 0..=255u8 {
                let out = Rgba::new(Rgb666::new(fg, bg, 63 - fg), a).blend(Rgb666::new(bg, fg, bg));
                assert_eq!(
                    channels(out),
                    (expected(fg, bg, a), expected(bg, fg, a), expected(63 - fg, bg, a))
                );
            }
        }
    }
}

#[test]
fn matches_integer_formula_565() {
    for fg in 0..32u8 {
        for bg in 0..64u8 {
            for a in (0..=255u8).step_by(3) {
                let f = Rgb565::new(fg, bg, 31 - fg);
                let b = Rgb565::new(bg & 0x1f, fg, bg & 0x1f);
                let out = Rgba::new(f, a).blend(b);
                assert_eq!(
                    channels(out),
                    (
                        expected(fg, bg & 0x1f, a),
                        expected(bg, fg, a),
                        expected(31 - fg, bg & 0x1f, a)
                    )
                );
            }
        }
    }
}

#[test]
fn higher_alpha_moves_toward_foreground() {
    let fg = Rgb888::new(250, 3, 128);
    let bg = Rgb888::new(10, 200, 128);
    let mut prev = bg;
    for a in 0..=255u8 {
        let out = Rgba::new(fg, a).blend(bg);
        assert!(out.r() >= prev.r());
        assert!(out.g() <= prev.g());
        assert_eq!(out.b(), 128);
        prev = out;
    }
    assert_eq!(prev, fg);
    let fg = Rgb565::new(2, 60, 31);
    let bg = Rgb565::new(30, 1, 0);
    let mut prev = bg;
    for a in 0..=255u8 {
        let out = Rgba::new(fg, a).blend(bg);
        assert!(out.r() <= prev.r() && out.g() >= prev.g() && out.b() >= prev.b());
        prev = out;
    }
}

#[test]
fn permuted_channels_permute_result() {
    for a in [1u8, 64, 128, 200, 254] {
        let out = Rgba::new(Rgb888::new(10, 150, 240), a).blend(Rgb888::new(90, 5, 33));
        let rot = Rgba::new(Rgb888::new(150, 240, 10), a).blend(Rgb888::new(5, 33, 90));
        assert_eq!((out.g(), out.b(), out.r()), channels(rot));
        let out = Rgba::new(Rgb565::new(3, 40, 29), a).blend(Rgb565::new(20, 7, 1));
        let swapped = Rgba::new(Rgb565::new(29, 40, 3), a).blend(Rgb565::new(1, 7, 20));
        assert_eq!((out.b(), out.g(), out.r()), channels(swapped));
    }
}

#[test]
fn formats_888_and_666_agree() {
    for f in (0..64u8).step_by(3) {
        for b in (0..64u8).step_by(5) {
            for a in 0..=255u8 {
                let o8 = Rgba::new(Rgb888::new(4 * f, 4 * b, 4 * f), a).blend(Rgb888::new(4 * b, 4 * f, 0));
                let o6 = Rgba::new(Rgb666::new(f, b, f), a).blend(Rgb666::new(b, f, 0));
                for (x, y) in [(o8.r(), o6.r()), (o8.g(), o6.g()), (o8.b(), o6.b())] {
                    let diff = x as i32 - 4 * y as i32;
                    assert!((-3..=3).contains(&diff));
                }
            }
        }
    }
}
