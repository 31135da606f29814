use color::channel::{to_channel, Channel, FloatChannel};
use color::ratio::Ratio;

fn ratio_of_f32(x: f32) -> Ratio {
    Ratio::new((x * 16777216.0) as u64, 16777216).unwrap()
}

fn ratio_of_f64(x: f64) -> Ratio {
    Ratio::new((x * 2147483648.0) as u64, 2147483648).unwrap()
}

fn f32_of(r: Ratio) -> f32 {
    r.numerator() as f32 / r.denominator() as f32
}

fn f64_of(r: Ratio) -> f64 {
    r.numerator() as f64 / r.denominator() as f64
}

#[test]
fn test_to_channel_u8() {
    assert_eq!(0x00_u8.to_channel_u8(), 0x00_u8);
    assert_eq!(0x30_u8.to_channel_u8(), 0x30_u8);
    assert_eq!(0x66_u8.to_channel_u8(), 0x66_u8);
    assert_eq!(0xA0_u8.to_channel_u8(), 0xA0_u8);
    assert_eq!(0xFF_u8.to_channel_u8(), 0xFF_u8);

    assert_eq!(0x00_u8.to_channel_u16(), 0x0000_u16);
    assert_eq!(0x30_u8.to_channel_u16(), 0x3030_u16);
    assert_eq!(0x66_u8.to_channel_u16(), 0x6666_u16);
    assert_eq!(0xA0_u8.to_channel_u16(), 0xA0A0_u16);
    assert_eq!(0xFF_u8.to_channel_u16(), 0xFFFF_u16);

    assert_eq!(f32_of(Ratio::from_channel(0x00_u8)), 0f32);
    assert_eq!(f32_of(Ratio::from_channel(0xFF_u8)), 1f32);

    assert_eq!(f64_of(Ratio::from_channel(0x00_u8)), 0f64);
    assert_eq!(f64_of(Ratio::from_channel(0xFF_u8)), 1f64);
}

#[test]
fn test_invert_channel_u8() {
    assert_eq!(0x00_u8.invert_channel(), 0xFF_u8);
    assert_eq!(0x66_u8.invert_channel(), 0x99_u8);
    assert_eq!(0xFF_u8.invert_channel(), 0x00_u8);
}

#[test]
fn test_to_channel_u16() {
    assert_eq!(0x0000_u16.to_channel_u8(), 0x00_u8);
    assert_eq!(0x3300_u16.to_channel_u8(), 0x33_u8);
    assert_eq!(0x6666_u16.to_channel_u8(), 0x66_u8);
    assert_eq!(0xAA00_u16.to_channel_u8(), 0xAA_u8);
    assert_eq!(0xFFFF_u16.to_channel_u8(), 0xFF_u8);

    assert_eq!(0x0000_u16.to_channel_u16(), 0x0000_u16);
    assert_eq!(0x3300_u16.to_channel_u16(), 0x3300_u16);
    assert_eq!(0x6666_u16.to_channel_u16(), 0x6666_u16);
    assert_eq!(0xAA00_u16.to_channel_u16(), 0xAA00_u16);
    assert_eq!(0xFFFF_u16.to_channel_u16(), 0xFFFF_u16);

    assert_eq!(f32_of(Ratio::from_channel(0x0000_u16)), 0f32);
    assert_eq!(f32_of(Ratio::from_channel(0xFFFF_u16)), 1f32);

    assert_eq!(f64_of(Ratio::from_channel(0x0000_u16)), 0f64);
    assert_eq!(f64_of(Ratio::from_channel(0xFFFF_u16)), 1f64);
}

#[test]
fn test_invert_channel_u16() {
    assert_eq!(0x0000_u16.invert_channel(), 0xFFFF_u16);
    assert_eq!(0x6666_u16.invert_channel(), 0x9999_u16);
    assert_eq!(0xFFFF_u16.invert_channel(), 0x0000_u16);
}

#[test]
fn test_to_channel_f32() {
    assert_eq!(ratio_of_f32(0.00f32).to_channel_u8(), 0x00);
    assert_eq!(ratio_of_f32(0.25f32).to_channel_u8(), 0x3F);
    assert_eq!(ratio_of_f32(0.50f32).to_channel_u8(), 0x7F);
    assert_eq!(ratio_of_f32(0.75f32).to_channel_u8(), 0xBF);
    assert_eq!(ratio_of_f32(1.00f32).to_channel_u8(), 0xFF);

    assert_eq!(ratio_of_f32(0.00f32).to_channel_u16(), 0x0000);
    assert_eq!(ratio_of_f32(0.25f32).to_channel_u16(), 0x3FFF);
    assert_eq!(ratio_of_f32(0.50f32).to_channel_u16(), 0x7FFF);
    assert_eq!(ratio_of_f32(0.75f32).to_channel_u16(), 0xBFFF);
    assert_eq!(ratio_of_f32(1.00f32).to_channel_u16(), 0xFFFF);

    assert_eq!(f32_of(ratio_of_f32(0.00f32)), 0.00f32);
    assert_eq!(f32_of(ratio_of_f32(1.00f32)), 1.00f32);

    assert_eq!(f64_of(ratio_of_f32(0.00f32)), 0.00f64);
    assert_eq!(f64_of(ratio_of_f32(1.00f32)), 1.00f64);
}

#[test]
fn test_invert_channel_f32() {
    assert_eq!(f32_of(ratio_of_f32(0.00f32).invert_channel()), 1.00f32);
    assert_eq!(f32_of(ratio_of_f32(0.50f32).invert_channel()), 0.50f32);
    assert_eq!(f32_of(ratio_of_f32(1.00f32).invert_channel()), 0.00f32);
}

#[test]
fn test_invert_degrees_f32() {
    assert_eq!(f32_of(ratio_of_f32(0.00f32).invert_degrees()), 180.00f32);
    assert_eq!(f32_of(ratio_of_f32(45.00f32).invert_degrees()), 225.00f32);
    assert_eq!(f32_of(ratio_of_f32(90.00f32).invert_degrees()), 270.00f32);
    assert_eq!(f32_of(ratio_of_f32(360.00f32).invert_degrees()), 180.00f32);
    assert_eq!(f32_of(ratio_of_f32(720.00f32).invert_degrees()), 180.00f32);
}

#[test]
fn test_to_channel_f64() {
    assert_eq!(ratio_of_f64(0.00f64).to_channel_u8(), 0x00);
    assert_eq!(ratio_of_f64(0.25f64).to_channel_u8(), 0x3F);
    assert_eq!(ratio_of_f64(0.50f64).to_channel_u8(), 0x7F);
    assert_eq!(ratio_of_f64(0.75f64).to_channel_u8(), 0xBF);
    assert_eq!(ratio_of_f64(1.00f64).to_channel_u8(), 0xFF);

    assert_eq!(ratio_of_f64(0.00f64).to_channel_u16(), 0x0000);
    assert_eq!(ratio_of_f64(0.25f64).to_channel_u16(), 0x3FFF);
    assert_eq!(ratio_of_f64(0.50f64).to_channel_u16(), 0x7FFF);
    assert_eq!(ratio_of_f64(0.75f64).to_channel_u16(), 0xBFFF);
    assert_eq!(ratio_of_f64(1.00f64).to_channel_u16(), 0xFFFF);

    assert_eq!(f32_of(ratio_of_f64(0.00f64)), 0.00f32);
    assert_eq!(f32_of(ratio_of_f64(1.00f64)), 1.00f32);

    assert_eq!(f64_of(ratio_of_f64(0.00f64)), 0.00f64);
    assert_eq!(f64_of(ratio_of_f64(1.00f64)), 1.00f64);
}

#[test]
fn test_invert_channel_f64() {
    assert_eq!(f64_of(ratio_of_f64(0.00f64).invert_channel()), 1.00f64);
    assert_eq!(f64_of(ratio_of_f64(0.50f64).invert_channel()), 0.50f64);
    assert_eq!(f64_of(ratio_of_f64(1.00f64).invert_channel()), 0.00f64);
}

#[test]
fn test_invert_degrees_f64() {
    assert_eq!(f64_of(ratio_of_f64(0.00f64).invert_degrees()), 180.00f64);
    assert_eq!(f64_of(ratio_of_f64(45.00f64).invert_degrees()), 225.00f64);
    assert_eq!(f64_of(ratio_of_f64(90.00f64).invert_degrees()), 270.00f64);
    assert_eq!(f64_of(ratio_of_f64(360.00f64).invert_degrees()), 180.00f64);
    assert_eq!(f64_of(ratio_of_f64(720.00f64).invert_degrees()), 180.00f64);
}

#[test]
fn boundary_conversions() {
    let lo: u16 = to_channel(0x00_u8);
    assert_eq!(lo, 0x0000_u16);
    assert_eq!(f32_of(Ratio::from_channel(lo)), 0.0f32);
    assert_eq!(f32_of(Ratio::from_channel(lo)) as f64, 0.0f64);
    let hi: u16 = to_channel(0xFF_u8);
    assert_eq!(hi, 0xFFFF_u16);
    assert_eq!(f32_of(Ratio::from_channel(hi)), 1.0f32);
    assert_eq!(f32_of(Ratio::from_channel(hi)) as f64, 1.0f64);
}

#[test]
fn u8_round_trip_is_exact() {
    for v in 0..=255u8 {
        assert_eq!(v.to_channel_u16().to_channel_u8(), v);
        let wide: u16 = to_channel(v);
        let back: u8 = to_channel(wide);
        assert_eq!(back, v);
    }
}

#[test]
fn u16_round_trip_truncates() {
    assert_eq!(0x1234_u16.to_channel_u8(), 0x12);
    assert_eq!(0x1234_u16.to_channel_u8().to_channel_u16(), 0x1212);
    assert_eq!(0x12FF_u16.to_channel_u8().to_channel_u16(), 0x1212);
    assert_eq!(0x0001_u16.to_channel_u8().to_channel_u16(), 0x0000);
    assert_eq!(0xABAB_u16.to_channel_u8().to_channel_u16(), 0xABAB);
}

#[test]
fn invert_is_an_involution() {
    for v in 0..=255u8 {
        assert_eq!(v.invert_channel().invert_channel(), v);
    }
    for v in [0u16, 1, 0x00FF, 0x0100, 0x6666, 0xFFFE, 0xFFFF] {
        assert_eq!(v.invert_channel().invert_channel(), v);
    }
    let third = Ratio::new(1, 3).unwrap();
    assert_eq!(third.invert_channel(), Ratio::new(2, 3).unwrap());
    assert_eq!(third.invert_channel().invert_channel(), third);
}

#[test]
fn invert_of_a_fraction_above_one_is_zero() {
    let r = Ratio::new(3, 2).unwrap();
    assert_eq!(r.invert_channel(), Ratio::new(0, 2).unwrap());
}

#[test]
fn clamp_holds_between_bounds() {
    assert_eq!(Channel::clamp(5u8, 10, 20), 10);
    assert_eq!(Channel::clamp(15u8, 10, 20), 15);
    assert_eq!(Channel::clamp(25u8, 10, 20), 20);
    assert_eq!(Channel::clamp(10u8, 10, 20), 10);
    assert_eq!(Channel::clamp(20u8, 10, 20), 20);
    assert_eq!(Channel::clamp(0x8000u16, 0x0100, 0x7FFF), 0x7FFF);
}

#[test]
fn clamp_with_crossed_bounds_tests_the_lower_first() {
    assert_eq!(Channel::clamp(5u8, 20, 10), 20);
    assert_eq!(Channel::clamp(15u8, 20, 10), 20);
    assert_eq!(Channel::clamp(25u8, 20, 10), 10);
}

#[test]
fn max_and_min_pick_by_level() {
    assert_eq!(Channel::max(3u8, 9), 9);
    assert_eq!(Channel::max(9u8, 3), 9);
    assert_eq!(Channel::min(3u16, 9), 3);
    assert_eq!(Channel::min(9u16, 3), 3);
    assert_eq!(color::channel::max(7u8, 7), 7);
    assert_eq!(color::channel::min(1u16, 0xFFFF), 1);
}

#[test]
fn max_value_is_full_intensity() {
    assert_eq!(<u8 as Channel>::max_value(), 255);
    assert_eq!(<u16 as Channel>::max_value(), 65535);
}

#[test]
fn zero_and_one_are_the_first_two_levels() {
    assert_eq!(color::zero::<u8>(), 0);
    assert_eq!(color::one::<u8>(), 1);
    assert_eq!(color::zero::<u16>(), 0);
    assert_eq!(color::one::<u16>(), 1);
}

#[test]
fn levels_go_through_the_cast() {
    assert_eq!(<u8 as Channel>::from_level(0x99), 0x99u8);
    assert_eq!(<u16 as Channel>::from_level(0x9999), 0x9999u16);
    assert_eq!(0x99u8.to_level(), 0x99u32);
    assert_eq!(0x9999u16.to_level(), 0x9999u32);
}

#[test]
fn saturating_arithmetic_holds_at_the_ends() {
    assert_eq!(Channel::saturating_add(254u8, 20), 255);
    assert_eq!(Channel::saturating_add(20u8, 20), 40);
    assert_eq!(Channel::saturating_sub(20u8, 50), 0);
    assert_eq!(Channel::saturating_sub(50u8, 20), 30);
    assert_eq!(Channel::saturating_add(0xFFF0u16, 0x20), 0xFFFF);
    assert_eq!(Channel::saturating_add(0x0100u16, 0x20), 0x0120);
    assert_eq!(Channel::saturating_sub(0x0010u16, 0x20), 0);
    assert_eq!(Channel::saturating_sub(0x0100u16, 0x20), 0x00E0);
}

#[test]
fn normalized_mul_treats_values_as_fractions() {
    assert_eq!(127u8.normalized_mul(255), 127);
    assert_eq!(255u8.normalized_mul(255), 255);
    assert_eq!(128u8.normalized_mul(128), 64);
    assert_eq!(16u8.normalized_mul(16), 1);
    assert_eq!(0x8000u16.normalized_mul(0x8000), 0x4000);
    assert_eq!(200u8.normalized_mul(0), 0);
}

#[test]
fn normalized_div_treats_values_as_fractions() {
    assert_eq!(127u8.normalized_div(255), 127);
    assert_eq!(64u8.normalized_div(128), 127);
    assert_eq!(128u8.normalized_div(64), 255);
    assert_eq!(200u8.normalized_div(200), 255);
    assert_eq!(0u8.normalized_div(0), 0);
    assert_eq!(1u8.normalized_div(0), 255);
    assert_eq!(0x4000u16.normalized_div(0x8000), 0x7FFF);
}

#[test]
fn mix_meets_both_ends() {
    for (a, b) in [(0u8, 255u8), (255, 0), (20, 200), (200, 20), (7, 7)] {
        assert_eq!(a.mix(b, 0), a);
        assert_eq!(a.mix(b, 255), b);
    }
    assert_eq!(0x1234u16.mix(0xABCD, 0), 0x1234);
    assert_eq!(0x1234u16.mix(0xABCD, 0xFFFF), 0xABCD);
}

#[test]
fn mix_goes_part_of_the_way() {
    assert_eq!(0u8.mix(255, 128), 128);
    assert_eq!(255u8.mix(0, 128), 127);
    assert_eq!(100u8.mix(200, 51), 120);
    assert_eq!(200u8.mix(100, 51), 180);
}

#[test]
fn levels_add_and_multiply() {
    assert_eq!(20u8.add_levels(20), 40);
    assert_eq!(50u8.sub_levels(20), 30);
    assert_eq!(12u8.mul_levels(10), 120);
    assert_eq!(120u8.div_levels(7), 17);
}

#[test]
fn ratio_needs_a_denominator() {
    assert!(Ratio::new(1, 0).is_none());
    let r = Ratio::new(3, 4).unwrap();
    assert_eq!(r.numerator(), 3);
    assert_eq!(r.denominator(), 4);
    assert_eq!(Ratio::whole(7), Ratio::new(7, 1).unwrap());
}

#[test]
fn ratio_compares_by_value() {
    let half = Ratio::new(1, 2).unwrap();
    let two_quarters = Ratio::new(2, 4).unwrap();
    let third = Ratio::new(1, 3).unwrap();
    assert!(half.eq_value(two_quarters));
    assert!(half != two_quarters);
    assert!(third.lt(half));
    assert!(!half.lt(third));
    assert!(!half.lt(two_quarters));
}

#[test]
fn ratio_clamps_and_normalizes() {
    let lo = Ratio::new(1, 4).unwrap();
    let hi = Ratio::new(3, 4).unwrap();
    assert_eq!(Ratio::new(1, 8).unwrap().clamp(lo, hi), lo);
    assert_eq!(Ratio::new(7, 8).unwrap().clamp(lo, hi), hi);
    assert_eq!(Ratio::new(1, 2).unwrap().clamp(lo, hi), Ratio::new(1, 2).unwrap());
    assert_eq!(Ratio::new(5, 4).unwrap().normalize_channel(), Ratio::whole(1));
    assert_eq!(Ratio::new(3, 4).unwrap().normalize_channel(), Ratio::new(3, 4).unwrap());
    assert_eq!(Ratio::new(725, 2).unwrap().normalize_degrees(), Ratio::new(5, 2).unwrap());
    assert_eq!(Ratio::new(719, 2).unwrap().normalize_degrees(), Ratio::new(719, 2).unwrap());
}

#[test]
fn ratio_and_channel_round_trip() {
    for v in 0..=255u8 {
        assert_eq!(Ratio::from_channel(v).to_channel::<u8>(), v);
    }
    for v in [0u16, 1, 0x0100, 0x6666, 0xFFFE, 0xFFFF] {
        assert_eq!(Ratio::from_channel(v).to_channel::<u16>(), v);
    }
    assert_eq!(Ratio::from_channel(0x99u8), Ratio::new(0x99, 0xFF).unwrap());
    assert_eq!(Ratio::new(3, 2).unwrap().to_channel_u8(), 0xFF);
    assert_eq!(Ratio::new(3, 2).unwrap().to_channel_u16(), 0xFFFF);
}
