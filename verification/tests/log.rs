use spewcap::log::{default_log_filename, Log, LogFile};

/// ANSI stripping with timestamps disabled yields exactly the plain text.
#[test]
fn write_line_strips_ansi() {
    let mut log = Log::new(false, "t.txt".to_string(), 0);
    log.write_line("abc\x1b[31mred\x1b[0m\n", 0);
    log.force_flush();
    let bytes = log.take_pending();
    assert_eq!(bytes, b"abcred\n".to_vec());
}

/// With timestamps enabled at zero elapsed time, the line carries the zero
/// stamp prefix.
#[test]
fn write_line_stamps_zero_elapsed() {
    let mut log = Log::new(true, "t.txt".to_string(), 5);
    log.write_line("abc\x1b[31mred\x1b[0m\n", 5);
    log.force_flush();
    let bytes = log.take_pending();
    assert_eq!(bytes, b"[00:00:00:000ms] abcred\n".to_vec());
}

/// The stamp renders hours, minutes, seconds and milliseconds of the elapsed
/// time since log-open.
#[test]
fn write_line_stamps_elapsed_time() {
    let mut log = Log::new(true, "t.txt".to_string(), 1000);
    log.write_line("x\n", 1000 + 3_723_456);
    log.force_flush();
    let bytes = log.take_pending();
    assert_eq!(bytes, b"[01:02:03:456ms] x\n".to_vec());
}

/// A line without any escape byte passes through unchanged.
#[test]
fn write_line_plain_passthrough() {
    let mut log = Log::new(false, "t.txt".to_string(), 0);
    log.write_line("plain text\n", 0);
    log.force_flush();
    assert_eq!(log.take_pending(), b"plain text\n".to_vec());
}

/// Writes mark the log unsaved; every tenth write flushes the batch.
#[test]
fn batch_flush_every_ten_writes() {
    let mut log = Log::new(false, "t.txt".to_string(), 0);
    assert!(!log.has_unsaved_changes());
    for _ in 0..9 {
        log.write_line("a\n", 0);
    }
    assert!(log.has_unsaved_changes());
    // nothing handed out yet: the batch is not due
    assert_eq!(log.take_pending(), Vec::<u8>::new());
    log.write_line("a\n", 0);
    // the tenth write released all ten lines
    assert_eq!(log.take_pending(), b"a\n".repeat(10));
}

/// Toggling the enabled state twice returns it to its original value.
#[test]
fn toggle_twice_restores_state() {
    let mut log = Log::new(false, "t.txt".to_string(), 0);
    let original = log.is_enabled();
    let after_one = log.toggle();
    assert_eq!(after_one, !original);
    let after_two = log.toggle();
    assert_eq!(after_two, original);
    assert_eq!(log.is_enabled(), original);
}

/// The cleanup decision deletes exactly once, whatever shutdown path asks.
#[test]
fn cleanup_runs_once() {
    let mut file = LogFile::new(false, "t.txt".to_string(), 0);
    file.write_line("data\n", 0);
    let first = file.cleanup_temp_file();
    assert_eq!(first, Some(b"data\n".to_vec()));
    let second = file.cleanup_temp_file();
    assert_eq!(second, None);
    let third = file.cleanup_temp_file();
    assert_eq!(third, None);
}

/// After a successful save, no unsaved changes remain and the cleanup guard
/// is disarmed; the flushed bytes are exactly the prior content.
#[test]
fn save_as_success_clears_unsaved() {
    let mut file = LogFile::new(false, "t.txt".to_string(), 0);
    file.write_line("one\n", 0);
    file.write_line("two\n", 0);
    assert!(file.has_unsaved_changes());
    let flushed = file.ensure_flushed();
    assert_eq!(flushed, b"one\ntwo\n".to_vec());
    let result = file.save_as_and_keep(Ok(()));
    assert!(result.is_ok());
    assert!(!file.has_unsaved_changes());
    // the guard is disarmed: cleanup no longer deletes
    assert_eq!(file.cleanup_temp_file(), None);
}

/// A failed save leaves the unsaved mark and the temp file guard untouched.
#[test]
fn save_as_failure_keeps_state() {
    let mut file = LogFile::new(false, "t.txt".to_string(), 0);
    file.write_line("one\n", 0);
    let result = file.save_as_and_keep(Err("denied".to_string()));
    assert_eq!(result, Err(spewcap::error::SpewcapError::Io("denied".to_string())));
    assert!(file.has_unsaved_changes());
    // the guard is still armed: cleanup deletes (once)
    assert!(file.cleanup_temp_file().is_some());
}

/// The generated default filename has the `log_YYYYMMDD_HHMMSS.txt` shape.
#[test]
fn default_filename_shape() {
    let name = default_log_filename();
    assert!(name.starts_with("log_"));
    assert!(name.ends_with(".txt"));
    assert_eq!(name.len(), "log_YYYYMMDD_HHMMSS.txt".len());
    let digits: Vec<char> = name.chars().collect();
    for i in 4..12 {
        assert!(digits[i].is_ascii_digit());
    }
    assert_eq!(digits[12], '_');
    for i in 13..19 {
        assert!(digits[i].is_ascii_digit());
    }
}

/// The filename and accessors round through the log unchanged.
#[test]
fn log_accessors() {
    let file = LogFile::new(true, "log_19990101_000000.txt".to_string(), 7);
    assert_eq!(file.get_filename(), "log_19990101_000000.txt");
    assert!(file.is_enabled());
    assert!(!file.has_unsaved_changes());
}
