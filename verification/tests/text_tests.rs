use sarus_bridge::errors::BoundaryError;
use sarus_bridge::marshal::decode_text;
use sarus_bridge::marshal::encode_text;
use sarus_bridge::textfmt::format_text;

#[test]
fn format_value_into_ample_buffer() {
    let template = b"Value: {}".to_vec();
    let rendered = format!("{}", 42.0f64);
    assert_eq!(rendered, "42");
    let out = format_text(&template, &rendered.clone().into_bytes(), 32).unwrap();
    assert_eq!(out, b"Value: 42\0".to_vec());
    assert!(out.len() <= 32);
}

#[test]
fn format_without_placeholder_keeps_template() {
    let template = b"no holes here".to_vec();
    let out = format_text(&template, &b"42".to_vec(), 64).unwrap();
    assert_eq!(out, b"no holes here\0".to_vec());
}

#[test]
fn format_replaces_only_the_first_placeholder() {
    let template = b"a {} b {}".to_vec();
    let out = format_text(&template, &b"X".to_vec(), 64).unwrap();
    assert_eq!(out, b"a X b {}\0".to_vec());
}

#[test]
fn format_that_exceeds_capacity_is_an_error_not_an_overflow() {
    let template = b"Value: {}".to_vec();
    let value = b"123456".to_vec();
    // formatted text is 13 bytes plus the terminator
    assert_eq!(format_text(&template, &value, 13), Err(BoundaryError::CapacityOverflow));
    let out = format_text(&template, &value, 14).unwrap();
    assert_eq!(out, b"Value: 123456\0".to_vec());
}

#[test]
fn format_counts_the_terminator_against_capacity() {
    let template = b"{}".to_vec();
    assert_eq!(format_text(&template, &b"abc".to_vec(), 3), Err(BoundaryError::CapacityOverflow));
    assert_eq!(format_text(&template, &b"abc".to_vec(), 4).unwrap(), b"abc\0".to_vec());
}

#[test]
fn encode_appends_terminator() {
    let out = encode_text(&b"freezing".to_vec()).unwrap();
    assert_eq!(out, b"freezing\0".to_vec());
}

#[test]
fn encode_rejects_interior_null() {
    let r = encode_text(&b"a\0b".to_vec());
    assert_eq!(r, Err(BoundaryError::PreconditionViolation));
}

#[test]
fn decode_reads_up_to_the_first_null() {
    let text = decode_text(&b"boiling\0junk".to_vec()).unwrap();
    assert_eq!(text, b"boiling".to_vec());
}

#[test]
fn decode_without_terminator_is_rejected_not_overread() {
    let r = decode_text(&b"no terminator".to_vec());
    assert_eq!(r, Err(BoundaryError::PreconditionViolation));
}

#[test]
fn encode_decode_round_trip() {
    let original = b"Celsius / Fahrenheit converter".to_vec();
    let crossed = encode_text(&original).unwrap();
    let back = decode_text(&crossed).unwrap();
    assert_eq!(back, original);
}
