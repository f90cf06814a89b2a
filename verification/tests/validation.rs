use tuxedo_keyboard_cli::decimal_string;
use tuxedo_keyboard_cli::parse_u8_decimal;
use tuxedo_keyboard_cli::validate_brightness;
use tuxedo_keyboard_cli::validate_color;
use tuxedo_keyboard_cli::validate_mode;
use tuxedo_keyboard_cli::validate_state;
use tuxedo_keyboard_cli::Error;

fn expect_range_error(r: Result<u8, Error>, range: &str) {
    match r {
        Err(Error::InvalidRange(t)) => assert_eq!(t, range),
        other => panic!("expected a range error naming '{}', got {:?}", range, other),
    }
}

#[test]
fn brightness_accepts_upper_bound() {
    assert_eq!(validate_brightness("255").unwrap(), 255);
}

#[test]
fn brightness_accepts_lower_bound() {
    assert_eq!(validate_brightness("0").unwrap(), 0);
}

#[test]
fn brightness_rejects_one_past_upper_bound() {
    expect_range_error(validate_brightness("256"), "0 - 255");
}

#[test]
fn brightness_rejects_non_numeric() {
    expect_range_error(validate_brightness("bright"), "0 - 255");
}

#[test]
fn mode_accepts_whole_range() {
    for m in 0u8..=7u8 {
        assert_eq!(validate_mode(&format!("{}", m)).unwrap(), m);
    }
}

#[test]
fn mode_rejects_eight_naming_range() {
    expect_range_error(validate_mode("8"), "0 - 7");
}

#[test]
fn mode_rejects_non_numeric_naming_range() {
    expect_range_error(validate_mode("fast"), "0 - 7");
}

#[test]
fn mode_accepts_leading_zeros() {
    assert_eq!(validate_mode("007").unwrap(), 7);
}

#[test]
fn state_accepts_zero_and_one() {
    assert_eq!(validate_state("0").unwrap(), 0);
    assert_eq!(validate_state("1").unwrap(), 1);
}

#[test]
fn state_rejects_two_naming_range() {
    expect_range_error(validate_state("2"), "0 - 1");
}

#[test]
fn state_rejects_non_numeric_naming_range() {
    expect_range_error(validate_state("on"), "0 - 1");
}

#[test]
fn state_rejects_empty_string() {
    expect_range_error(validate_state(""), "0 - 1");
}

#[test]
fn state_rejects_signed_number() {
    expect_range_error(validate_state("+1"), "0 - 1");
}

#[test]
fn color_accepts_six_hex_digits() {
    assert_eq!(validate_color("FF0000").unwrap(), "FF0000");
}

#[test]
fn color_accepts_lower_case_hex() {
    assert_eq!(validate_color("ff00aa").unwrap(), "ff00aa");
}

#[test]
fn color_rejects_wrong_length() {
    match validate_color("FF00") {
        Err(Error::InvalidColorFormat(t)) => assert_eq!(t, "FF00"),
        other => panic!("expected a color format error, got {:?}", other),
    }
}

#[test]
fn color_rejects_seven_digits() {
    assert!(matches!(validate_color("FF00000"), Err(Error::InvalidColorFormat(_))));
}

#[test]
fn color_rejects_non_hex_character() {
    match validate_color("GG0000") {
        Err(Error::InvalidColorFormat(t)) => assert_eq!(t, "GG0000"),
        other => panic!("expected a color format error, got {:?}", other),
    }
}

#[test]
fn color_rejects_sign_character() {
    assert!(matches!(validate_color("+F0000"), Err(Error::InvalidColorFormat(_))));
}

#[test]
fn parse_reads_plain_decimal() {
    assert_eq!(parse_u8_decimal("200"), Some(200));
    assert_eq!(parse_u8_decimal("0"), Some(0));
    assert_eq!(parse_u8_decimal("255"), Some(255));
}

#[test]
fn parse_rejects_overflow_and_junk() {
    assert_eq!(parse_u8_decimal("256"), None);
    assert_eq!(parse_u8_decimal("99999999999999999999"), None);
    assert_eq!(parse_u8_decimal(""), None);
    assert_eq!(parse_u8_decimal("1a"), None);
    assert_eq!(parse_u8_decimal("-1"), None);
}

#[test]
fn decimal_rendering_is_exact() {
    assert_eq!(decimal_string(0), "0");
    assert_eq!(decimal_string(7), "7");
    assert_eq!(decimal_string(42), "42");
    assert_eq!(decimal_string(200), "200");
    assert_eq!(decimal_string(255), "255");
}

#[test]
fn error_messages_carry_their_context() {
    let range = validate_mode("9").unwrap_err();
    assert_eq!(range.message(), "a parameter is outside the accepted range '0 - 7'");
    let color = validate_color("nope").unwrap_err();
    assert_eq!(
        color.message(),
        "the color must be an RGB hex string like 'FF0000' - input: 'nope'"
    );
    assert_eq!(
        Error::MissingAttributeDirectory.message(),
        "the driver attribute directory is missing or not listable"
    );
    assert_eq!(Error::MissingKernelModule.message(), "the kernel module is not loaded");
}
