//! Tests of the theme domain: label mapping, encoding, and label parsing.

use wintheme::theme::{label_of_dword, parse_label, ThemeError, ThemeLabel};

#[test]
fn label_of_stored_one_is_light() {
    assert_eq!(label_of_dword(1), ThemeLabel::Light);
}

#[test]
fn label_of_stored_zero_is_dark() {
    assert_eq!(label_of_dword(0), ThemeLabel::Dark);
}

#[test]
fn label_of_other_stored_values_is_dark() {
    assert_eq!(label_of_dword(2), ThemeLabel::Dark);
    assert_eq!(label_of_dword(0xffffffff), ThemeLabel::Dark);
}

#[test]
fn label_dword_round_trip() {
    assert_eq!(ThemeLabel::Light.dword(), 1);
    assert_eq!(ThemeLabel::Dark.dword(), 0);
    assert_eq!(label_of_dword(ThemeLabel::Light.dword()), ThemeLabel::Light);
    assert_eq!(label_of_dword(ThemeLabel::Dark.dword()), ThemeLabel::Dark);
}

#[test]
fn flipped_negates() {
    assert_eq!(ThemeLabel::Light.flipped(), ThemeLabel::Dark);
    assert_eq!(ThemeLabel::Dark.flipped(), ThemeLabel::Light);
}

#[test]
fn labels_print_as_light_and_dark() {
    assert_eq!(ThemeLabel::Light.as_str(), "light");
    assert_eq!(ThemeLabel::Dark.as_str(), "dark");
}

#[test]
fn parse_accepts_light_and_dark() {
    assert_eq!(parse_label("light"), Ok(ThemeLabel::Light));
    assert_eq!(parse_label("dark"), Ok(ThemeLabel::Dark));
}

#[test]
fn parse_is_case_insensitive() {
    assert_eq!(parse_label("LIGHT"), Ok(ThemeLabel::Light));
    assert_eq!(parse_label("Light"), Ok(ThemeLabel::Light));
    assert_eq!(parse_label("LiGhT"), Ok(ThemeLabel::Light));
    assert_eq!(parse_label("DARK"), Ok(ThemeLabel::Dark));
    assert_eq!(parse_label("Dark"), Ok(ThemeLabel::Dark));
}

#[test]
fn parse_rejects_other_labels() {
    assert_eq!(parse_label("purple"), Err(ThemeError::InvalidInput));
    assert_eq!(parse_label(""), Err(ThemeError::InvalidInput));
    assert_eq!(parse_label("lights"), Err(ThemeError::InvalidInput));
    assert_eq!(parse_label("darke"), Err(ThemeError::InvalidInput));
    assert_eq!(parse_label("ligh"), Err(ThemeError::InvalidInput));
}
