//! Tests of the compositor nudge and the broadcast parameter.

use wintheme::dwm::{dwm_refresh_values, flip_colorization, DEFAULT_COLORIZATION};
use wintheme::notify::{broadcast_setting_name, wide_nul_param};

#[test]
fn flip_moves_the_low_digit_up_when_it_has_room() {
    assert_eq!(flip_colorization(0xffd77800), 0xffd77801);
    assert_eq!(flip_colorization(0x00000000), 0x00000001);
    assert_eq!(flip_colorization(0xffd7780e), 0xffd7780f);
}

#[test]
fn flip_moves_the_low_digit_down_from_its_maximum() {
    assert_eq!(flip_colorization(0xffd7780f), 0xffd7780e);
    assert_eq!(flip_colorization(0xffffffff), 0xfffffffe);
}

#[test]
fn flip_always_changes_the_value() {
    for c in [0u32, 1, 0xf, 0x10, 0xffd77800, 0xffffffff] {
        assert_ne!(flip_colorization(c), c);
    }
}

#[test]
fn refresh_values_default_a_missing_color() {
    let (flipped, original) = dwm_refresh_values(None);
    assert_eq!(original, DEFAULT_COLORIZATION);
    assert_eq!(flipped, DEFAULT_COLORIZATION + 1);
}

#[test]
fn refresh_values_restore_the_stored_color() {
    let (flipped, original) = dwm_refresh_values(Some(0x11223344));
    assert_eq!(original, 0x11223344);
    assert_eq!(flipped, 0x11223345);
    assert_ne!(flipped, original);
}

#[test]
fn broadcast_parameter_is_the_wide_setting_name() {
    let name = broadcast_setting_name();
    assert_eq!(name, "ImmersiveColorSet");
    let wide = wide_nul_param(name);
    let expected: Vec<u16> = name.encode_utf16().chain([0]).collect();
    assert_eq!(wide, expected);
}

#[test]
fn wide_parameter_of_empty_name_is_just_the_terminator() {
    assert_eq!(wide_nul_param(""), vec![0u16]);
}
