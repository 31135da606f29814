use color::alpha::{AlphaColor, Rgba, ToRgba};
use color::hsv::Hsv;
use color::ratio::Ratio;
use color::rgb::{Rg, Rgb, ToRgb};
use color::{Color, Color4};

fn rgba(r: u8, g: u8, b: u8, a: u8) -> Rgba<u8> {
    AlphaColor { c: Rgb::new(r, g, b), a }
}

#[test]
fn alpha_clamps_colour_and_opacity() {
    let c = rgba(5, 100, 250, 30);
    assert_eq!(c.clamp_s(10, 200), rgba(10, 100, 200, 30));
    assert_eq!(c.clamp_s(40, 200), rgba(40, 100, 200, 40));
    assert_eq!(c.clamp_c(rgba(0, 120, 0, 50), rgba(4, 255, 255, 60)), rgba(4, 120, 250, 50));
}

#[test]
fn alpha_inverse_is_an_involution() {
    let c = rgba(0x00, 0x66, 0xFF, 0x11);
    assert_eq!(c.inverse(), rgba(0xFF, 0x99, 0x00, 0xEE));
    assert_eq!(c.inverse().inverse(), c);
}

#[test]
fn alpha_mix_meets_both_ends() {
    let a = rgba(10, 200, 0, 255);
    let b = rgba(250, 20, 255, 0);
    assert_eq!(a.mix(b, 0), a);
    assert_eq!(a.mix(b, 255), b);
    assert_eq!(a.mix(b, 51), rgba(58, 164, 51, 204));
}

#[test]
fn alpha_arithmetic_goes_component_by_component() {
    assert_eq!(rgba(20, 20, 20, 20) + rgba(20, 30, 40, 50), rgba(40, 50, 60, 70));
    assert_eq!(rgba(40, 50, 60, 70) - rgba(20, 30, 40, 50), rgba(20, 20, 20, 20));
    assert_eq!(rgba(127, 127, 127, 127) * rgba(255, 255, 255, 255), rgba(127, 127, 127, 127));
    assert_eq!(rgba(127, 127, 127, 127) / rgba(255, 255, 255, 255), rgba(127, 127, 127, 127));
    assert_eq!(rgba(10, 20, 30, 40) * 3u8, rgba(30, 60, 90, 120));
    assert_eq!(rgba(10, 20, 31, 40) / 3u8, rgba(3, 6, 10, 13));
    assert_eq!(rgba(254, 254, 254, 254).saturating_add(rgba(20, 20, 20, 0)), rgba(255, 255, 255, 254));
    assert_eq!(rgba(20, 20, 20, 20).saturating_sub(rgba(50, 50, 50, 10)), rgba(0, 0, 0, 10));
}

#[test]
fn alpha_converts_colour_and_opacity() {
    let c = rgba(0xA0, 0xB0, 0xC0, 0xD0);
    assert_eq!(c.to_rgb::<u16>(), Rgb::new(0xA0A0, 0xB0B0, 0xC0C0));
    let wide: Rgba<u16> = c.to_rgba();
    assert_eq!(wide, AlphaColor { c: Rgb::new(0xA0A0, 0xB0B0, 0xC0C0), a: 0xD0D0 });
    let narrow: Rgba<u8> = wide.to_rgba();
    assert_eq!(narrow, c);
}

#[test]
fn colours_without_opacity_are_opaque() {
    let c: Rgba<u8> = Rgb::new(1u8, 2, 3).to_rgba();
    assert_eq!(c, rgba(1, 2, 3, 0xFF));
    let w: Rgba<u16> = Rgb::new(1u8, 2, 3).to_rgba();
    assert_eq!(w, AlphaColor { c: Rgb::new(0x0101, 0x0202, 0x0303), a: 0xFFFF });
    let red = Hsv::new(Ratio::whole(0), Ratio::whole(1), Ratio::whole(1));
    let h: Rgba<u8> = red.to_rgba();
    assert_eq!(h, rgba(0xFF, 0, 0, 0xFF));
}

#[test]
fn alpha_components_come_in_order() {
    assert_eq!(rgba(1, 2, 3, 4).into_fixed(), [1, 2, 3, 4]);
}

#[test]
fn swizzles_reorder_components() {
    let c = rgba(1, 2, 3, 4);
    assert_eq!(c.rg(), Rg { r: 1, g: 2 });
    assert_eq!(c.ba(), Rg { r: 3, g: 4 });
    assert_eq!(c.ar(), Rg { r: 4, g: 1 });
    assert_eq!(c.rgb(), Rgb::new(1, 2, 3));
    assert_eq!(c.bgr(), Rgb::new(3, 2, 1));
    assert_eq!(c.gba(), Rgb::new(2, 3, 4));
    assert_eq!(c.arg(), Rgb::new(4, 1, 2));
    assert_eq!(c.bag(), Rgb::new(3, 4, 2));
    assert_eq!(c.rgba(), c);
    assert_eq!(c.bgra(), rgba(3, 2, 1, 4));
    assert_eq!(c.argb(), rgba(4, 1, 2, 3));
    assert_eq!(c.abgr(), rgba(4, 3, 2, 1));
    assert_eq!(c.bgar(), rgba(3, 2, 4, 1));
    let d = Rgb::new(1u8, 2, 3);
    assert_eq!(d.rg(), Rg { r: 1, g: 2 });
    assert_eq!(d.bg(), Rg { r: 3, g: 2 });
    assert_eq!(d.rgb(), d);
    assert_eq!(d.rbg(), Rgb::new(1, 3, 2));
    assert_eq!(d.bgr(), Rgb::new(3, 2, 1));
    assert_eq!(d.brg(), Rgb::new(3, 1, 2));
    assert_eq!(d.grb(), Rgb::new(2, 1, 3));
    assert_eq!(d.gbr(), Rgb::new(2, 3, 1));
}

#[test]
fn components_can_be_indexed() {
    let c = rgba(1, 2, 3, 4);
    assert_eq!((c[0], c[1], c[2], c[3]), (1, 2, 3, 4));
    let d = Rgb::new(5u16, 6, 7);
    assert_eq!((d[0], d[1], d[2]), (5, 6, 7));
}
