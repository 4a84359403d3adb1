use monolith_core::color::{hex_to_color, Color};

#[test]
fn parses_six_digit_hex() {
    let c = hex_to_color("#1D1D1D");
    assert_eq!(c, Color { r: 0x1D, g: 0x1D, b: 0x1D, a: 255 });
}

#[test]
fn parses_mixed_case_hex() {
    let c = hex_to_color("#3A6EA5");
    assert_eq!(c, Color { r: 0x3A, g: 0x6E, b: 0xA5, a: 255 });
    let c = hex_to_color("#d1d1d1");
    assert_eq!(c, Color { r: 0xD1, g: 0xD1, b: 0xD1, a: 255 });
}

#[test]
fn parses_without_hash() {
    let c = hex_to_color("A0B0C0");
    assert_eq!(c, Color { r: 0xA0, g: 0xB0, b: 0xC0, a: 255 });
}

#[test]
fn trims_every_leading_hash() {
    let c = hex_to_color("##FF0000");
    assert_eq!(c, Color { r: 255, g: 0, b: 0, a: 255 });
}

#[test]
fn parses_eight_digit_hex_with_alpha() {
    let c = hex_to_color("#11223344");
    assert_eq!(c, Color { r: 0x11, g: 0x22, b: 0x33, a: 0x44 });
}

#[test]
fn wrong_length_is_black() {
    let black = Color { r: 0, g: 0, b: 0, a: 255 };
    assert_eq!(hex_to_color("#FFF"), black);
    assert_eq!(hex_to_color(""), black);
    assert_eq!(hex_to_color("#"), black);
    assert_eq!(hex_to_color("#1234567"), black);
}

#[test]
fn invalid_component_reads_as_zero() {
    let c = hex_to_color("#GG0012");
    assert_eq!(c, Color { r: 0, g: 0, b: 0x12, a: 255 });
}

#[test]
fn invalid_alpha_reads_as_opaque() {
    let c = hex_to_color("#102030GG");
    assert_eq!(c, Color { r: 0x10, g: 0x20, b: 0x30, a: 255 });
}

#[test]
fn tolerates_leading_plus_in_a_component() {
    let c = hex_to_color("#+F0000");
    assert_eq!(c, Color { r: 15, g: 0, b: 0, a: 255 });
}

#[test]
fn black_helper_is_opaque_black() {
    assert_eq!(Color::black(), Color { r: 0, g: 0, b: 0, a: 255 });
}
