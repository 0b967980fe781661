use spewcap::ansi::strip_ansi_bytes;
use spewcap::clock::TimeParts;
use spewcap::fmt::{format_log_filename, format_timestamp};

#[test]
fn timestamp_zero() {
    assert_eq!(format_timestamp(0), b"00:00:00:000ms".to_vec());
}

#[test]
fn timestamp_mixed_fields() {
    // 1 h, 2 min, 3 s, 456 ms
    assert_eq!(format_timestamp(3_723_456), b"01:02:03:456ms".to_vec());
}

#[test]
fn timestamp_wide_hours() {
    // 100 hours: the hour field grows past two digits
    assert_eq!(format_timestamp(100 * 3_600_000 + 7), b"100:00:00:007ms".to_vec());
}

#[test]
fn filename_rendering() {
    let t = TimeParts { year: 2024, month: 1, day: 31, hour: 23, minute: 59, second: 9 };
    assert_eq!(format_log_filename(&t), b"log_20240131_235909.txt".to_vec());
}

#[test]
fn strip_removes_color_sequences() {
    assert_eq!(strip_ansi_bytes(b"abc\x1b[31mred\x1b[0m\n"), b"abcred\n".to_vec());
}

#[test]
fn strip_keeps_plain_text() {
    assert_eq!(strip_ansi_bytes(b"plain\n"), b"plain\n".to_vec());
}

#[test]
fn strip_handles_erase_sequences_and_parameters() {
    assert_eq!(strip_ansi_bytes(b"\x1b[Kx\x1b[1;31my"), b"xy".to_vec());
}

#[test]
fn strip_keeps_malformed_sequences() {
    // no final byte: the escape introducer stays verbatim
    assert_eq!(strip_ansi_bytes(b"a\x1b[31x"), b"a\x1b[31x".to_vec());
    assert_eq!(strip_ansi_bytes(b"tail\x1b["), b"tail\x1b[".to_vec());
}
