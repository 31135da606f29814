use color::channel::Channel;
use color::hsv::{Hsv, ToHsv};
use color::ratio::Ratio;
use color::rgb::{Rgb, ToRgb};
use color::{Color, Color3, FloatColor};

fn f32_of(r: Ratio) -> f32 {
    r.numerator() as f32 / r.denominator() as f32
}

fn whole_of_f32(x: f32) -> Ratio {
    Ratio::whole(x as u64)
}

fn rgb_of_f32(r: f32, g: f32, b: f32) -> Rgb<Ratio> {
    Rgb::new(whole_of_f32(r), whole_of_f32(g), whole_of_f32(b))
}

fn rgb_f32(c: Rgb<Ratio>) -> Rgb<f32> {
    Rgb::new(f32_of(c.r), f32_of(c.g), f32_of(c.b))
}

fn hsv_f32(c: Hsv<Ratio>) -> Hsv<f32> {
    Hsv::new(f32_of(c.h), f32_of(c.s), f32_of(c.v))
}

#[test]
fn test_rgb_to_rgb() {
    assert_eq!(Rgb::<u8>::new(0xA0, 0xA0, 0xA0).to_rgb::<u8>(), Rgb::<u8>::new(0xA0, 0xA0, 0xA0));
    assert_eq!(
        Rgb::<u8>::new(0xA0, 0xA0, 0xA0).to_rgb::<u16>(),
        Rgb::<u16>::new(0xA0A0, 0xA0A0, 0xA0A0)
    );
}

#[test]
fn test_rgb_to_hsv() {
    assert_eq!(
        hsv_f32(Rgb::<u8>::new(0xFF, 0xFF, 0xFF).to_hsv()),
        Hsv::<f32>::new(0.0, 0.0, 1.0)
    );
    assert_eq!(
        hsv_f32(Rgb::<u8>::new(0x99, 0x00, 0x00).to_hsv()),
        Hsv::<f32>::new(0.0, 1.0, 0.6)
    );
    assert_eq!(
        hsv_f32(Rgb::<u8>::new(0x00, 0x99, 0x00).to_hsv()),
        Hsv::<f32>::new(120.0, 1.0, 0.6)
    );
    assert_eq!(
        hsv_f32(Rgb::<u8>::new(0x00, 0x00, 0x99).to_hsv()),
        Hsv::<f32>::new(240.0, 1.0, 0.6)
    );
}

#[test]
fn rgb_to_hsv_gives_exact_fractions() {
    let c = Rgb::<u8>::new(200, 100, 50).to_hsv();
    assert_eq!(c.h, Ratio::new(60 * 50, 150).unwrap());
    assert_eq!(c.s, Ratio::new(150, 200).unwrap());
    assert_eq!(c.v, Ratio::new(200, 255).unwrap());
    let c = Rgb::<u8>::new(200, 50, 100).to_hsv();
    assert_eq!(c.h, Ratio::new(360 * 150 - 60 * 50, 150).unwrap());
    let c = Rgb::<u8>::new(50, 200, 100).to_hsv();
    assert_eq!(c.h, Ratio::new(60 * 50 + 120 * 150, 150).unwrap());
    let c = Rgb::<u8>::new(100, 200, 50).to_hsv();
    assert_eq!(c.h, Ratio::new(120 * 150 - 60 * 50, 150).unwrap());
    let c = Rgb::<u8>::new(100, 50, 200).to_hsv();
    assert_eq!(c.h, Ratio::new(60 * 50 + 240 * 150, 150).unwrap());
    let c = Rgb::<u8>::new(50, 100, 200).to_hsv();
    assert_eq!(c.h, Ratio::new(240 * 150 - 60 * 50, 150).unwrap());
    let c = Rgb::<u16>::new(0xFFFF, 0, 0x8000).to_hsv();
    assert_eq!(c.h, Ratio::new(360 * 0xFFFF - 60 * 0x8000, 0xFFFF).unwrap());
    assert_eq!(c.v, Ratio::new(0xFFFF, 0xFFFF).unwrap());
}

#[test]
fn ties_for_the_greatest_go_to_red_then_green() {
    let yellow = Rgb::<u8>::new(255, 255, 0).to_hsv();
    assert_eq!(f32_of(yellow.h), 60.0);
    let magenta = Rgb::<u8>::new(255, 0, 255).to_hsv();
    assert_eq!(f32_of(magenta.h), 300.0);
    let cyan = Rgb::<u8>::new(0, 255, 255).to_hsv();
    assert_eq!(f32_of(cyan.h), 180.0);
}

#[test]
fn greys_have_no_hue_and_no_saturation() {
    assert_eq!(
        hsv_f32(Rgb::<u8>::new(0, 0, 0).to_hsv()),
        Hsv::<f32>::new(0.0, 0.0, 0.0)
    );
    assert_eq!(
        hsv_f32(Rgb::<u8>::new(255, 255, 255).to_hsv()),
        Hsv::<f32>::new(0.0, 0.0, 1.0)
    );
    for v in 0..=255u8 {
        let c = Rgb::new(v, v, v).to_hsv();
        assert_eq!(c.h, Ratio::whole(0));
        assert_eq!(c.s, Ratio::whole(0));
        assert_eq!(c.v, Ratio::new(v as u64, 255).unwrap());
    }
}

#[test]
fn test_rgb_ops() {
    assert_eq!(Rgb::new(20u8, 20, 20) + Rgb::new(20, 20, 20), Rgb::new(40, 40, 40));
    assert_eq!(
        Rgb::new(254u8, 254, 254).saturating_add(Rgb::new(20, 20, 20)),
        Rgb::new(255, 255, 255)
    );
    assert_eq!(
        Rgb::new(20u8, 20, 20).saturating_sub(Rgb::new(50, 50, 50)),
        Rgb::new(0, 0, 0)
    );
    assert_eq!(Rgb::new(127u8, 127, 127) * Rgb::new(255, 255, 255), Rgb::new(127, 127, 127));
    assert_eq!(Rgb::new(127u8, 127, 127) / Rgb::new(255, 255, 255), Rgb::new(127, 127, 127));
    assert_eq!(
        rgb_f32(rgb_of_f32(1.0f32, 1.0, 1.0) * whole_of_f32(2.0)),
        Rgb::new(2.0, 2.0, 2.0)
    );
    assert_eq!(
        rgb_f32((rgb_of_f32(1.0f32, 1.0, 1.0) * whole_of_f32(2.0)).normalize()),
        Rgb::new(1.0, 1.0, 1.0)
    );
}

#[test]
fn colours_of_fractions_add_and_multiply_exactly() {
    let half = Ratio::new(1, 2).unwrap();
    let third = Ratio::new(1, 3).unwrap();
    let c = Rgb::new(half, third, Ratio::whole(1));
    assert_eq!(
        c + c,
        Rgb::new(Ratio::new(4, 4).unwrap(), Ratio::new(6, 9).unwrap(), Ratio::new(2, 1).unwrap())
    );
    assert_eq!(
        c - Rgb::new(third, third, half),
        Rgb::new(Ratio::new(1, 6).unwrap(), Ratio::new(0, 9).unwrap(), Ratio::new(1, 2).unwrap())
    );
    assert_eq!(
        c * c,
        Rgb::new(Ratio::new(1, 4).unwrap(), Ratio::new(1, 9).unwrap(), Ratio::whole(1))
    );
    assert_eq!(
        c / Rgb::new(third, half, half),
        Rgb::new(Ratio::new(3, 2).unwrap(), Ratio::new(2, 3).unwrap(), Ratio::new(2, 1).unwrap())
    );
    assert_eq!(
        c * third,
        Rgb::new(Ratio::new(1, 6).unwrap(), Ratio::new(1, 9).unwrap(), Ratio::new(1, 3).unwrap())
    );
    assert_eq!(
        c / third,
        Rgb::new(Ratio::new(3, 2).unwrap(), Ratio::new(3, 3).unwrap(), Ratio::new(3, 1).unwrap())
    );
    assert_eq!(half * third, Ratio::new(1, 6).unwrap());
    assert_eq!(half + third, Ratio::new(5, 6).unwrap());
    assert_eq!(half - third, Ratio::new(1, 6).unwrap());
    assert_eq!(half / third, Ratio::new(3, 2).unwrap());
}

#[test]
fn colours_of_fractions_clamp_and_invert() {
    let lo = Ratio::new(1, 4).unwrap();
    let hi = Ratio::new(3, 4).unwrap();
    let c = Rgb::new(Ratio::new(1, 8).unwrap(), Ratio::new(1, 2).unwrap(), Ratio::new(7, 8).unwrap());
    assert_eq!(c.clamp_s(lo, hi), Rgb::new(lo, Ratio::new(1, 2).unwrap(), hi));
    assert_eq!(
        c.clamp_c(Rgb::new(lo, lo, lo), Rgb::new(hi, lo, hi)),
        Rgb::new(lo, lo, hi)
    );
    assert_eq!(
        c.inverse(),
        Rgb::new(Ratio::new(7, 8).unwrap(), Ratio::new(1, 2).unwrap(), Ratio::new(1, 8).unwrap())
    );
    assert_eq!(c.inverse().inverse(), c);
}

#[test]
fn rgb_subtracts_and_scales() {
    assert_eq!(Rgb::new(40u8, 50, 60) - Rgb::new(20, 20, 20), Rgb::new(20, 30, 40));
    assert_eq!(Rgb::new(10u8, 20, 30) * 3u8, Rgb::new(30, 60, 90));
    assert_eq!(Rgb::new(10u8, 20, 31) / 3u8, Rgb::new(3, 6, 10));
    assert_eq!(
        Rgb::new(0x1000u16, 0x2000, 0x3000) + Rgb::new(1, 2, 3),
        Rgb::new(0x1001, 0x2002, 0x3003)
    );
}

#[test]
fn rgb_clamps_component_by_component() {
    let c = Rgb::new(5u8, 100, 250);
    assert_eq!(c.clamp_s(10, 200), Rgb::new(10, 100, 200));
    assert_eq!(
        c.clamp_c(Rgb::new(0, 120, 0), Rgb::new(4, 255, 255)),
        Rgb::new(4, 120, 250)
    );
}

#[test]
fn rgb_inverse_is_an_involution() {
    let c = Rgb::new(0x00u8, 0x66, 0xFF);
    assert_eq!(c.inverse(), Rgb::new(0xFF, 0x99, 0x00));
    assert_eq!(c.inverse().inverse(), c);
    let d = Rgb::new(0x0000u16, 0x6666, 0xFFFF);
    assert_eq!(d.inverse(), Rgb::new(0xFFFF, 0x9999, 0x0000));
    assert_eq!(d.inverse().inverse(), d);
}

#[test]
fn rgb_mix_meets_both_ends() {
    let a = Rgb::new(10u8, 200, 0);
    let b = Rgb::new(250u8, 20, 255);
    assert_eq!(a.mix(b, 0), a);
    assert_eq!(a.mix(b, <u8 as Channel>::max_value()), b);
    assert_eq!(a.mix(b, 51), Rgb::new(58, 164, 51));
}

#[test]
fn packed_colour_unpacks_to_its_bytes() {
    assert_eq!(0x00A0B0C0u32.to_rgb::<u8>(), Rgb::new(0xA0, 0xB0, 0xC0));
    assert_eq!(0xFFA0B0C0u32.to_rgb::<u8>(), Rgb::new(0xA0, 0xB0, 0xC0));
    assert_eq!(0x00A0B0C0u32.to_rgb::<u16>(), Rgb::new(0xA0A0, 0xB0B0, 0xC0C0));
    assert_eq!(0x00000000u32.to_rgb::<u8>(), Rgb::new(0, 0, 0));
    assert_eq!(0x00FFFFFFu32.to_rgb::<u16>(), Rgb::new(0xFFFF, 0xFFFF, 0xFFFF));
}

#[test]
fn packed_colour_converts_to_hsv() {
    assert_eq!(hsv_f32(0x00990000u32.to_hsv()), Hsv::<f32>::new(0.0, 1.0, 0.6));
    assert_eq!(hsv_f32(0x00009900u32.to_hsv()), Hsv::<f32>::new(120.0, 1.0, 0.6));
}

#[test]
fn rgb_narrows_by_cutting_the_low_byte() {
    assert_eq!(Rgb::<u16>::new(0x12FF, 0xAB00, 0x00FF).to_rgb::<u8>(), Rgb::new(0x12, 0xAB, 0x00));
    assert_eq!(
        Rgb::<u16>::new(0x12FF, 0xAB00, 0x00FF).to_rgb::<u16>(),
        Rgb::new(0x12FF, 0xAB00, 0x00FF)
    );
}

#[test]
fn rgb_components_come_in_order() {
    assert_eq!(Rgb::new(1u8, 2, 3).into_fixed(), [1, 2, 3]);
}
