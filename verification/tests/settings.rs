use bevy_mod_film_grain::settings::{
    DEFAULT_STRENGTH_BITS, MAX_STRENGTH_BITS, MIN_STRENGTH_BITS, NEGATIVE_ZERO_BITS,
};
use bevy_mod_film_grain::FilmGrainSettings;

fn in_range(strength: f32) -> bool {
    FilmGrainSettings::from_strength(strength.to_bits()).strength_in_range()
}

#[test]
fn from_strength_keeps_the_strength() {
    let settings = FilmGrainSettings::from_strength(0.05f32.to_bits());
    assert_eq!(f32::from_bits(settings.strength_bits), 0.05f32);
    assert_eq!(settings.strength_bits, 0x3D4C_CCCD);
}

#[test]
fn from_strength_accepts_any_pattern() {
    for bits in [0u32, 1, 0x3F80_0000, 0x7F80_0000, 0x7FC0_0000, 0x8000_0000, u32::MAX] {
        assert_eq!(FilmGrainSettings::from_strength(bits).strength_bits, bits);
    }
}

#[test]
fn default_strength_is_one_fifth() {
    let settings = FilmGrainSettings::default();
    assert_eq!(f32::from_bits(settings.strength_bits), 0.2f32);
    assert_eq!(settings.strength_bits, DEFAULT_STRENGTH_BITS);
    assert_eq!(DEFAULT_STRENGTH_BITS, 0x3E4C_CCCD);
}

#[test]
fn settings_are_copied_whole() {
    let settings = FilmGrainSettings::from_strength(0.75f32.to_bits());
    let copy = settings;
    let clone = settings.clone();
    assert_eq!(copy.strength_bits, settings.strength_bits);
    assert_eq!(clone.strength_bits, settings.strength_bits);
}

#[test]
fn range_constants_are_zero_and_one() {
    assert_eq!(MIN_STRENGTH_BITS, 0.0f32.to_bits());
    assert_eq!(MAX_STRENGTH_BITS, 1.0f32.to_bits());
    assert_eq!(NEGATIVE_ZERO_BITS, (-0.0f32).to_bits());
}

#[test]
fn default_strength_is_in_range() {
    assert!(FilmGrainSettings::default().strength_in_range());
}

#[test]
fn range_includes_both_ends() {
    assert!(in_range(0.0));
    assert!(in_range(-0.0));
    assert!(in_range(1.0));
    assert!(in_range(0.5));
    assert!(in_range(f32::MIN_POSITIVE));
    assert!(in_range(f32::from_bits(1)));
    assert!(in_range(f32::from_bits(0x3F7F_FFFF)));
}

#[test]
fn range_excludes_what_lies_outside() {
    assert!(!in_range(f32::from_bits(0x3F80_0001)));
    assert!(!in_range(1.5));
    assert!(!in_range(2.0));
    assert!(!in_range(f32::MAX));
    assert!(!in_range(-0.2));
    assert!(!in_range(-1.0));
    assert!(!in_range(-f32::MIN_POSITIVE));
    assert!(!in_range(f32::from_bits(0x8000_0001)));
    assert!(!in_range(f32::MIN));
}

#[test]
fn range_excludes_infinities_and_nans() {
    assert!(!in_range(f32::INFINITY));
    assert!(!in_range(f32::NEG_INFINITY));
    assert!(!in_range(f32::NAN));
    assert!(!in_range(f32::from_bits(0x7F80_0001)));
    assert!(!in_range(f32::from_bits(0xFFC0_0000)));
    assert!(!in_range(f32::from_bits(u32::MAX)));
}

#[test]
fn range_agrees_with_comparison_of_numbers() {
    let mut bits: u32 = 0;
    loop {
        let strength = f32::from_bits(bits);
        let expected = 0.0 <= strength && strength <= 1.0;
        assert_eq!(in_range(strength), expected, "pattern {:#010x}", bits);
        match bits.checked_add(40_009) {
            Some(next) => bits = next,
            None => break,
        }
    }
}

#[test]
fn range_agrees_with_comparison_near_the_ends() {
    let centers = [0u32, 0x3F80_0000, 0x7F80_0000, 0x8000_0000, 0xBF80_0000, 0xFF80_0000];
    for center in centers {
        for step in 0u32..=64 {
            for bits in [center.wrapping_sub(step), center.wrapping_add(step)] {
                let strength = f32::from_bits(bits);
                let expected = 0.0 <= strength && strength <= 1.0;
                assert_eq!(in_range(strength), expected, "pattern {:#010x}", bits);
            }
        }
    }
}
