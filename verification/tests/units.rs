use pyxel::{
    decode_blend_mode, deserialize_as_degrees, deserialize_as_milliseconds,
    deserialize_map_as_vec, deserialize_multipliers, parse_usize, u64_to_string, BlendMode, Color,
    Json, PyxelError,
};
use std::str::FromStr;

#[test]
fn convert_color_from_aarrggbb() {
    let c = Color::from_str("ffaabbcc").unwrap();
    assert_eq!(170, c.r);
    assert_eq!(187, c.g);
    assert_eq!(204, c.b);
    assert_eq!(255, c.a);
}

#[test]
fn color_accepts_upper_case_digits() {
    let c = Color::from_hex("FFAABBCC").unwrap();
    assert_eq!(Color { r: 170, g: 187, b: 204, a: 255 }, c);
}

#[test]
fn color_rejects_wrong_length() {
    assert!(matches!(Color::from_hex("ffaabbc").unwrap_err(), PyxelError::Serde(_)));
    assert!(matches!(Color::from_hex("ffaabbcc0").unwrap_err(), PyxelError::Serde(_)));
    assert!(matches!(Color::from_hex("").unwrap_err(), PyxelError::Serde(_)));
}

#[test]
fn color_rejects_non_hex_characters() {
    assert!(matches!(Color::from_hex("ffaabbcg").unwrap_err(), PyxelError::Serde(_)));
    assert!(matches!(Color::from_hex("zzaabbcc").unwrap_err(), PyxelError::Serde(_)));
}

#[test]
fn degrees_multiplies_the_quadrant_by_ninety() {
    assert_eq!(0, deserialize_as_degrees(&Json::UInt(0)).unwrap());
    assert_eq!(90, deserialize_as_degrees(&Json::UInt(1)).unwrap());
    assert_eq!(180, deserialize_as_degrees(&Json::UInt(2)).unwrap());
    assert_eq!(270, deserialize_as_degrees(&Json::UInt(3)).unwrap());
    assert_eq!(450, deserialize_as_degrees(&Json::UInt(5)).unwrap());
}

#[test]
fn degrees_rejects_non_integers_and_overflow() {
    assert!(matches!(
        deserialize_as_degrees(&Json::Str("1".to_string())).unwrap_err(),
        PyxelError::Serde(_)
    ));
    assert!(matches!(deserialize_as_degrees(&Json::Null).unwrap_err(), PyxelError::Serde(_)));
    assert!(matches!(
        deserialize_as_degrees(&Json::UInt(u64::MAX)).unwrap_err(),
        PyxelError::Serde(_)
    ));
}

#[test]
fn milliseconds_are_taken_exactly() {
    assert_eq!(150, deserialize_as_milliseconds(&Json::UInt(150)).unwrap());
    assert_eq!(0, deserialize_as_milliseconds(&Json::UInt(0)).unwrap());
    assert_eq!(u64::MAX, deserialize_as_milliseconds(&Json::UInt(u64::MAX)).unwrap());
    assert!(matches!(
        deserialize_as_milliseconds(&Json::Bool(true)).unwrap_err(),
        PyxelError::Serde(_)
    ));
}

#[test]
fn multipliers_keep_the_scaled_values_in_order() {
    let v = deserialize_multipliers(&Json::Arr(vec![
        Json::UInt(100),
        Json::UInt(200),
        Json::UInt(50),
    ]))
    .unwrap();
    assert_eq!(vec![100, 200, 50], v);
}

#[test]
fn multipliers_accept_the_empty_array() {
    let v = deserialize_multipliers(&Json::Arr(Vec::new())).unwrap();
    assert!(v.is_empty());
}

#[test]
fn multipliers_reject_non_integer_elements() {
    let err = deserialize_multipliers(&Json::Arr(vec![Json::UInt(100), Json::Null])).unwrap_err();
    assert!(matches!(err, PyxelError::Serde(_)));
    let err = deserialize_multipliers(&Json::UInt(100)).unwrap_err();
    assert!(matches!(err, PyxelError::Serde(_)));
}

#[test]
fn map_as_vec_orders_by_ascending_key() {
    let out = deserialize_map_as_vec(vec![(0usize, 'a'), (1, 'b'), (2, 'c')]).unwrap();
    assert_eq!(vec!['a', 'b', 'c'], out);
    let shuffled = deserialize_map_as_vec(vec![(2usize, 'c'), (0, 'a'), (1, 'b')]).unwrap();
    assert_eq!(vec!['a', 'b', 'c'], shuffled);
}

#[test]
fn map_as_vec_accepts_the_empty_map() {
    let out = deserialize_map_as_vec(Vec::<(usize, char)>::new()).unwrap();
    assert!(out.is_empty());
}

#[test]
fn map_as_vec_rejects_duplicate_keys() {
    let err = deserialize_map_as_vec(vec![(0usize, 'a'), (0, 'b')]).unwrap_err();
    assert!(matches!(err, PyxelError::Serde(_)));
}

#[test]
fn map_as_vec_rejects_gaps_and_out_of_range_keys() {
    let err = deserialize_map_as_vec(vec![(0usize, 'a'), (2, 'c')]).unwrap_err();
    assert!(matches!(err, PyxelError::Serde(_)));
    let err = deserialize_map_as_vec(vec![(5usize, 'a')]).unwrap_err();
    assert!(matches!(err, PyxelError::Serde(_)));
}

#[test]
fn blend_mode_tags_decode_one_to_one() {
    let cases = [
        ("normal", BlendMode::Normal),
        ("multiply", BlendMode::Multiply),
        ("add", BlendMode::Add),
        ("difference", BlendMode::Difference),
        ("darken", BlendMode::Darken),
        ("lighten", BlendMode::Lighten),
        ("hardlight", BlendMode::Hardlight),
        ("invert", BlendMode::Invert),
        ("overlay", BlendMode::Overlay),
        ("screen", BlendMode::Screen),
        ("subtract", BlendMode::Subtract),
    ];
    for (tag, mode) in cases {
        assert_eq!(mode, decode_blend_mode(&tag.to_string()).unwrap());
    }
}

#[test]
fn blend_mode_rejects_unknown_tags() {
    assert!(matches!(
        decode_blend_mode(&"glow".to_string()).unwrap_err(),
        PyxelError::Serde(_)
    ));
    assert!(matches!(
        decode_blend_mode(&"Normal".to_string()).unwrap_err(),
        PyxelError::Serde(_)
    ));
    assert!(matches!(decode_blend_mode(&"".to_string()).unwrap_err(), PyxelError::Serde(_)));
}

#[test]
fn parse_usize_reads_decimal_keys() {
    assert_eq!(Some(0), parse_usize("0"));
    assert_eq!(Some(7), parse_usize("007"));
    assert_eq!(Some(56), parse_usize("56"));
    assert_eq!(Some(18446744073709551615), parse_usize("18446744073709551615"));
}

#[test]
fn parse_usize_rejects_bad_keys() {
    assert_eq!(None, parse_usize(""));
    assert_eq!(None, parse_usize("12a"));
    assert_eq!(None, parse_usize("-1"));
    assert_eq!(None, parse_usize(" 1"));
    assert_eq!(None, parse_usize("99999999999999999999999999"));
}

#[test]
fn u64_to_string_prints_decimal() {
    assert_eq!("0", u64_to_string(0));
    assert_eq!("7", u64_to_string(7));
    assert_eq!("1234", u64_to_string(1234));
    assert_eq!("18446744073709551615", u64_to_string(u64::MAX));
}

#[test]
fn errors_carry_a_diagnostic_message() {
    let err = decode_blend_mode(&"glow".to_string()).unwrap_err();
    assert!(err.message().contains("blend"));
    let err = Color::from_hex("nope").unwrap_err();
    assert!(!err.message().is_empty());
}
