use hyprwhspr_rs::defaults::{
    default_fast_vad_volatility_decrease_threshold, default_fast_vad_volatility_increase_threshold,
    default_gemini_temperature, default_no_speech_threshold, default_vad_max_speech_s,
    default_vad_samples_overlap, default_vad_threshold, default_volume,
};
use hyprwhspr_rs::number::same_real_opt;
use hyprwhspr_rs::Real32;

fn number(x: f32) -> Real32 {
    Real32::from_bits(x.to_bits())
}

fn samples() -> Vec<f32> {
    vec![
        0.0,
        -0.0,
        1.0,
        -1.0,
        0.3,
        f32::MIN_POSITIVE,
        f32::MAX,
        f32::MIN,
        f32::INFINITY,
        f32::NEG_INFINITY,
        f32::NAN,
        -f32::NAN,
        f32::from_bits(1),
        f32::from_bits(0x7f80_0001),
        f32::from_bits(0xffc0_0000),
        f32::from_bits(0x8000_0001),
    ]
}

#[test]
fn classification_matches_the_hardware() {
    for x in samples() {
        assert_eq!(number(x).finite(), x.is_finite(), "{:?}", x);
        assert_eq!(number(x).nan(), x.is_nan(), "{:?}", x);
        assert_eq!(number(x).non_finite(), !x.is_finite(), "{:?}", x);
    }
}

#[test]
fn equality_matches_the_hardware() {
    for x in samples() {
        for y in samples() {
            assert_eq!(number(x).same_as(number(y)), x == y, "{:?} {:?}", x, y);
            assert_eq!(number(x) == number(y), x == y, "{:?} {:?}", x, y);
        }
    }
}

#[test]
fn nan_equals_nothing_and_zeros_equal_each_other() {
    assert!(!number(f32::NAN).same_as(number(f32::NAN)));
    assert!(number(0.0).same_as(number(-0.0)));
    assert!(!number(1.0).same_as(number(-1.0)));
}

#[test]
fn optional_numbers_compare_by_presence_and_value() {
    assert!(same_real_opt(None, None));
    assert!(!same_real_opt(Some(number(0.5)), None));
    assert!(!same_real_opt(None, Some(number(0.5))));
    assert!(same_real_opt(Some(number(0.0)), Some(number(-0.0))));
    assert!(!same_real_opt(Some(number(0.5)), Some(number(0.25))));
}

#[test]
fn bits_are_kept() {
    assert_eq!(Real32::from_bits(0x3e99_999a).to_bits(), 0x3e99_999a);
    assert_eq!(Real32::infinity().to_bits(), f32::INFINITY.to_bits());
}

#[test]
fn numeric_defaults_have_their_decimal_values() {
    assert_eq!(f32::from_bits(default_volume().to_bits()), 0.3);
    assert_eq!(f32::from_bits(default_no_speech_threshold().to_bits()), 0.60);
    assert_eq!(f32::from_bits(default_vad_threshold().to_bits()), 0.50);
    assert_eq!(f32::from_bits(default_vad_samples_overlap().to_bits()), 0.10);
    assert_eq!(f32::from_bits(default_gemini_temperature().to_bits()), 0.0);
    assert_eq!(f32::from_bits(default_fast_vad_volatility_increase_threshold().to_bits()), 0.35);
    assert_eq!(f32::from_bits(default_fast_vad_volatility_decrease_threshold().to_bits()), 0.12);
    assert_eq!(f32::from_bits(default_vad_max_speech_s().to_bits()), f32::INFINITY);
}
