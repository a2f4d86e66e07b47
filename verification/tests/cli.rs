//! Command-line validation: counts and output image paths.

use lustre::cli::{
    extension_of, output_is_hdr, parse_bounded_decimal, valid_count_u16, valid_count_u32,
    valid_image_file, valid_image_format, CountError,
};

#[test]
fn count_accepts_positive_numbers() {
    assert_eq!(valid_count_u32("5"), Ok(5));
    assert_eq!(valid_count_u32("+7"), Ok(7));
    assert_eq!(valid_count_u32("0042"), Ok(42));
    assert_eq!(valid_count_u32("4294967295"), Ok(u32::MAX));
}

#[test]
fn count_rejects_zero() {
    assert_eq!(valid_count_u32("0"), Err("count must be greater than 0".to_string()));
    assert_eq!(valid_count_u32("000"), Err("count must be greater than 0".to_string()));
}

#[test]
fn count_rejects_empty_and_garbage() {
    assert_eq!(
        valid_count_u32(""),
        Err("cannot parse integer from empty string".to_string())
    );
    assert_eq!(valid_count_u32("abc"), Err("invalid digit found in string".to_string()));
    assert_eq!(valid_count_u32("12x"), Err("invalid digit found in string".to_string()));
    assert_eq!(valid_count_u32("-3"), Err("invalid digit found in string".to_string()));
    assert_eq!(valid_count_u32("+"), Err("invalid digit found in string".to_string()));
}

#[test]
fn count_rejects_overflow() {
    assert_eq!(
        valid_count_u32("4294967296"),
        Err("number too large to fit in target type".to_string())
    );
    // overflow is noticed before the stray letter, as in the standard parser
    assert_eq!(
        valid_count_u32("99999999999999999999x"),
        Err("number too large to fit in target type".to_string())
    );
}

#[test]
fn count_u16_has_the_smaller_bound() {
    assert_eq!(valid_count_u16("65535"), Ok(u16::MAX));
    assert_eq!(
        valid_count_u16("65536"),
        Err("number too large to fit in target type".to_string())
    );
}

#[test]
fn bounded_parser_reports_each_case() {
    assert_eq!(parse_bounded_decimal("123", 1000), Ok(123));
    assert_eq!(parse_bounded_decimal("", 1000), Err(CountError::Empty));
    assert_eq!(parse_bounded_decimal("9a", 1000), Err(CountError::InvalidDigit));
    assert_eq!(parse_bounded_decimal("1001", 1000), Err(CountError::TooLarge));
    assert_eq!(parse_bounded_decimal("1000", 1000), Ok(1000));
}

#[test]
fn extension_is_after_the_last_dot() {
    assert_eq!(extension_of("output.png"), Some("png"));
    assert_eq!(extension_of("dir/file.tar.gz"), Some("gz"));
    assert_eq!(extension_of("trailing."), Some(""));
}

#[test]
fn paths_without_extension() {
    assert_eq!(extension_of("noext"), None);
    assert_eq!(extension_of("dir.d/file"), None);
    assert_eq!(extension_of("a/.hidden"), None);
    assert_eq!(extension_of(""), None);
}

#[test]
fn output_file_accepts_writable_formats() {
    assert_eq!(valid_image_file("output.png"), Ok("output.png".to_string()));
    assert_eq!(valid_image_file("shots/frame.exr"), Ok("shots/frame.exr".to_string()));
    assert_eq!(valid_image_file("photo.JPG"), Ok("photo.JPG".to_string()));
}

#[test]
fn output_file_rejects_text_files() {
    // text files are not valid image files
    assert_eq!(valid_image_file("bad.txt"), Err("unrecognized image format".to_string()));
}

#[test]
fn output_file_rejects_missing_extension() {
    assert_eq!(
        valid_image_file("justaname"),
        Err("the output path has no file extension".to_string())
    );
}

#[test]
fn output_file_rejects_read_only_formats() {
    // the image library recognizes DDS but has no encoder for it
    assert_eq!(
        valid_image_file("texture.dds"),
        Err("image format cannot be written".to_string())
    );
    assert_eq!(valid_image_format("dds"), Err("image format cannot be written".to_string()));
    assert_eq!(valid_image_format("png"), Ok(()));
}

#[test]
fn hdr_output_is_chosen_by_extension_alone() {
    assert!(output_is_hdr("image.exr"));
    assert!(output_is_hdr("image.EXR"));
    assert!(!output_is_hdr("image.png"));
    assert!(!output_is_hdr("exr"));
    assert!(!output_is_hdr("image.hdr"));
}

#[test]
fn count_rejects_non_ascii_digits() {
    // only the ten ASCII digits count, as in the standard parser
    assert_eq!(valid_count_u32("١٢"), Err("invalid digit found in string".to_string()));
    assert_eq!(valid_count_u32("1２"), Err("invalid digit found in string".to_string()));
}

#[test]
fn extension_handles_non_ascii_paths() {
    assert_eq!(extension_of("héllo.png"), Some("png"));
    assert_eq!(extension_of("bücher/bild"), None);
}
