use std::path::PathBuf;
use std::sync::Arc;
use vlm::vlm::letter_of;
use vlm::vlm::pack_letters;
use vlm::vlm::transform_address;
use vlm::vlm::transform_value;
use vlm::vlm::transform_value_wrapping;
use vlm::vlm::VLMDefined;
use vlm::vlm::Vlm;
use vlm::vlm::VlmOptions;
use vlm::vlm::DEFAULT_L;
use vlm::vlm::DEFAULT_M;
use vlm::vlm::DEFAULT_V;
use vlm::vlm::MODE_PORT;
use vlm::vlm::TRANSFORM_MAX;
use vlm::vlm::TRANSFORM_MIN;
use vlm::vlm::V;

type Plain = Vlm<u8, u8>;

#[test]
fn a_vlm_type_can_be_made() {
    let _vlm: Vlm<String, i32> = Vlm::new();
    let _other: Plain = Vlm::new();
}

#[test]
fn constants_are_the_codes_of_the_three_letters() {
    assert_eq!(Plain::V, 86);
    assert_eq!(Plain::L, 76);
    assert_eq!(Plain::M, 77);
    assert_eq!(Plain::VLM, (86i64 << 16) | (76i64 << 8) | 77i64);
    assert_eq!(Plain::VLM, 5655629);
    assert_eq!(Plain::VLM, pack_letters(DEFAULT_V, DEFAULT_L, DEFAULT_M));
}

#[test]
fn vlm_ascii_spells_the_three_letters() {
    assert_eq!(Plain::vlm_ascii(), "VLM");
}

#[test]
fn letter_of_gives_a_question_mark_for_no_character() {
    assert_eq!(letter_of(65), 'A');
    assert_eq!(letter_of(0x1F600), '\u{1F600}');
    assert_eq!(letter_of(0xD800), '?');
    assert_eq!(letter_of(0x110000), '?');
    assert_eq!(letter_of(-1), '?');
    assert_eq!(letter_of(0), '\0');
}

#[test]
fn return_ascii_cuts_the_codes_to_unsigned_numbers() {
    assert_eq!(Plain::return_ascii(86, 76, 77), [86, 76, 77]);
    assert_eq!(Plain::return_ascii(-1, 0, i32::MIN), [u32::MAX, 0, 0x8000_0000]);
}

#[test]
fn ascii_to_string_gives_one_letter_each() {
    assert_eq!(Plain::ascii_to_string(86, 76, 77), vec!["V", "L", "M"]);
    assert_eq!(Plain::ascii_to_string(-5, 0xDFFF, 233), vec!["?", "?", "é"]);
}

#[test]
fn ascii_to_hex_and_back_keep_the_number() {
    assert_eq!(Plain::ascii_to_hex(5655629), 5655629);
    assert_eq!(Plain::hex_to_ascii(5655629), 5655629);
    assert_eq!(Plain::ascii_to_hex(-1), -1);
    assert_eq!(Plain::hex_to_ascii(i64::MAX), i64::MAX as isize);
}

#[test]
fn hybrid_ascii_hex_mixes_the_number_with_each_letter() {
    let (ascii, mixed) = Plain::hybrid_ascii_hex(10);
    assert_eq!(ascii, "VLM");
    assert_eq!(mixed, [96, -66, 770, 10 ^ 86]);
    let (_, wrapped) = Plain::hybrid_ascii_hex(i32::MAX as i64);
    assert_eq!(
        wrapped,
        [
            i32::MAX.wrapping_add(86),
            i32::MAX.wrapping_sub(76),
            i32::MAX.wrapping_mul(77),
            i32::MAX ^ 86
        ]
    );
    let (_, cut) = Plain::hybrid_ascii_hex(0x1_0000_0005);
    assert_eq!(cut, [91, -71, 385, 5 ^ 86]);
}

#[test]
fn get_alias_is_the_name_of_the_type() {
    assert_eq!(Plain::get_alias(), "Vlm");
}

#[test]
fn transform_value_is_the_cubic() {
    assert_eq!(transform_value(0), 13);
    assert_eq!(transform_value(1), 13);
    assert_eq!(transform_value(2), 15);
    assert_eq!(transform_value(3), 25);
    assert_eq!(transform_value(-1), 9);
    assert_eq!(transform_value(10), 1000 - 200 + 10 + 13);
    assert_eq!(transform_value(TRANSFORM_MAX), 2143362103);
    assert_eq!(transform_value(TRANSFORM_MIN), -2145024887);
}

#[test]
fn transform_bounds_are_the_last_numbers_that_fit() {
    let cube = |x: i64| x * x * x - 2 * x * x + x;
    assert!(cube(TRANSFORM_MIN as i64) >= i32::MIN as i64);
    assert!(cube(TRANSFORM_MIN as i64 - 1) < i32::MIN as i64);
    let max = TRANSFORM_MAX as i64;
    assert!(max * max * max <= i32::MAX as i64);
    assert!((max + 1) * (max + 1) * (max + 1) > i32::MAX as i64);
}

#[test]
fn vlm_h_hex_asccii_simd_transforms_each_number() {
    assert_eq!(Plain::vlm_h_hex_asccii_simd([0, 1, 2, 3]), Some([13, 13, 15, 25]));
    assert_eq!(Plain::vlm_h_hex_asccii_simd([-1, 10, -10, 4]), Some([9, 823, -1197, 49]));
}

#[test]
fn transform_address_keeps_the_address_without_a_mode() {
    let addr = ([127, 0, 0, 1], 3030);
    assert_eq!(transform_address(addr, &Arc::new(None)), addr);
}

#[test]
fn transform_address_binds_the_fixed_port_with_a_mode() {
    let addr = ([10, 0, 0, 7], 3030);
    let mode = Arc::new(Some(V::Go(PathBuf::from("site"))));
    assert_eq!(transform_address(addr, &mode), ([10, 0, 0, 7], 9090));
    assert_eq!(MODE_PORT, 9090);
}

#[test]
fn resolve_fills_in_what_was_left_out() {
    let none = VlmOptions { v: None, l: None, m: None, vlm: None, alias: None };
    let constants = none.resolve("Vlm");
    assert_eq!(constants.v, 86);
    assert_eq!(constants.l, 76);
    assert_eq!(constants.m, 77);
    assert_eq!(constants.vlm, 5655629);
    assert_eq!(constants.alias, "Vlm");
}

#[test]
fn resolve_keeps_what_was_given() {
    let given = VlmOptions {
        v: Some(65),
        l: None,
        m: Some(67),
        vlm: None,
        alias: Some("MyAlias".to_string()),
    };
    let constants = given.resolve("Thing");
    assert_eq!(constants.v, 65);
    assert_eq!(constants.l, 76);
    assert_eq!(constants.m, 67);
    assert_eq!(constants.vlm, (65i64 << 16) | (76i64 << 8) | 67i64);
    assert_eq!(constants.alias, "MyAlias");
    let number = VlmOptions { v: Some(1), l: Some(2), m: Some(3), vlm: Some(12345), alias: None };
    let constants = number.resolve("Thing");
    assert_eq!(constants.vlm, 12345);
    assert_eq!(constants.alias, "Thing");
}

#[test]
fn pack_letters_keeps_the_sign_of_negative_codes() {
    assert_eq!(pack_letters(0, 0, -1), -1);
    assert_eq!(pack_letters(1, 0, 0), 65536);
    assert_eq!(pack_letters(0, 1, 0), 256);
}

#[test]
fn transform_value_wrapping_agrees_where_nothing_wraps() {
    for x in [TRANSFORM_MIN, -100, -1, 0, 1, 2, 3, 77, TRANSFORM_MAX] {
        assert_eq!(transform_value_wrapping(x), transform_value(x));
    }
}

#[test]
fn transform_value_wrapping_wraps_around_beyond_the_bounds() {
    let wrapped = |x: i32| {
        x.wrapping_pow(3)
            .wrapping_sub(2i32.wrapping_mul(x.wrapping_pow(2)))
            .wrapping_add(x)
            .wrapping_add(13)
    };
    for x in [TRANSFORM_MAX + 1, TRANSFORM_MIN - 1, 65536, -65536, i32::MAX, i32::MIN] {
        assert_eq!(transform_value_wrapping(x), wrapped(x));
    }
    assert_eq!(transform_value_wrapping(1291), -2146614183);
    assert_eq!(transform_value_wrapping(65536), 65549);
}
