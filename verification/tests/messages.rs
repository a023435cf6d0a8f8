use custom_cursor::cursor::BadCursor;
use custom_cursor::text::push_decimal;

fn numeral(n: u64) -> String {
    let mut text = String::new();
    push_decimal(&mut text, n);
    text
}

#[test]
fn numerals_are_decimal_without_leading_zeros() {
    assert_eq!(numeral(0), "0");
    assert_eq!(numeral(7), "7");
    assert_eq!(numeral(9), "9");
    assert_eq!(numeral(10), "10");
    assert_eq!(numeral(99), "99");
    assert_eq!(numeral(100), "100");
    assert_eq!(numeral(1234567890), "1234567890");
    assert_eq!(numeral(4_294_967_295), "4294967295");
    assert_eq!(numeral(u64::MAX), "18446744073709551615");
}

#[test]
fn numerals_agree_with_the_standard_formatting() {
    let mut n: u64 = 1;
    for _ in 0..64 {
        assert_eq!(numeral(n), format!("{}", n));
        assert_eq!(numeral(n - 1), format!("{}", n - 1));
        n = n.wrapping_mul(2);
    }
}

#[test]
fn numeral_is_appended_to_what_is_there() {
    let mut text = String::from("width ");
    push_decimal(&mut text, 32);
    assert_eq!(text, "width 32");
}

#[test]
fn message_for_byte_count() {
    let error = BadCursor::ByteCountNotDivisibleBy4 { byte_count: 5 };
    assert_eq!(
        error.message(),
        "The length of the `rgba` argument (5) isn't divisible by 4, making it impossible to interpret as 32bpp RGBA pixels."
    );
}

#[test]
fn message_for_dimensions() {
    let error = BadCursor::DimensionsVsPixelCount {
        width: 3,
        height: 2,
        width_x_height: 6,
        pixel_count: 4,
    };
    assert_eq!(
        error.message(),
        "The specified dimensions (3x2) don't match the number of pixels supplied by the `rgba` argument (4). For those dimensions, the expected pixel count is 6."
    );
}

#[test]
fn message_for_hotspot() {
    let error = BadCursor::HotspotOutOfBounds { width: 1, height: 1, hotspot_x: 5, hotspot_y: 5 };
    assert_eq!(
        error.message(),
        "The specified hotspot (5, 5) is outside the image bounds (1x1)."
    );
    let error =
        BadCursor::HotspotOutOfBounds { width: 16, height: 32, hotspot_x: 40, hotspot_y: 0 };
    assert_eq!(
        error.message(),
        "The specified hotspot (40, 0) is outside the image bounds (16x32)."
    );
}

#[test]
fn message_for_os_error_starts_with_its_prefix() {
    let error = BadCursor::OsError(std::io::Error::from_raw_os_error(12));
    let message = error.message();
    let prefix = "OS error when instantiating the image: ";
    assert!(message.starts_with(prefix));
    assert_eq!(
        &message[prefix.len()..],
        format!("{:?}", std::io::Error::from_raw_os_error(12))
    );
}

#[test]
fn message_for_other_error() {
    assert_eq!(BadCursor::OtherError.message(), "Other error");
}

#[test]
fn message_for_dimensions_beyond_32_bits() {
    let error = BadCursor::DimensionsVsPixelCount {
        width: 65536,
        height: 65536,
        width_x_height: 4_294_967_296,
        pixel_count: 0,
    };
    assert_eq!(
        error.message(),
        "The specified dimensions (65536x65536) don't match the number of pixels supplied by the `rgba` argument (0). For those dimensions, the expected pixel count is 4294967296."
    );
}
