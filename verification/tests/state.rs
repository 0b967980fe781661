use spewcap::log::LogFile;
use spewcap::state::{
    emergency_cleanup_logs, init_state, needs_save, quit_requested, request_quit_with_state,
    start_new_log, toggle_pause_capture, toggle_pause_logging,
};

/// Invoking the quit protocol twice neither panics nor deletes the temp file
/// twice: the second cleanup reports nothing to delete and the quit flag just
/// stays set.
#[test]
fn quit_protocol_twice_is_idempotent() {
    let mut state = init_state();
    start_new_log(&mut state, LogFile::new(false, "t.txt".to_string(), 0));
    state.log_state.active_log.as_mut().unwrap().write_line("data\n", 0);

    // first quit path: interactive command
    let first_delete = emergency_cleanup_logs(&mut state);
    request_quit_with_state(&mut state);
    assert!(quit_requested(&state));
    assert_eq!(first_delete, Some(b"data\n".to_vec()));

    // second quit path: a signal arriving after the manual quit
    let second_delete = emergency_cleanup_logs(&mut state);
    request_quit_with_state(&mut state);
    assert!(quit_requested(&state));
    assert_eq!(second_delete, None);
}

/// Toggling capture pause twice returns to the original value.
#[test]
fn capture_pause_toggles() {
    let mut state = init_state();
    assert!(!state.capture_paused);
    assert!(toggle_pause_capture(&mut state));
    assert!(!toggle_pause_capture(&mut state));
    assert!(!state.capture_paused);
}

/// Toggling logging needs an active log; with one, it flips its switch.
#[test]
fn logging_pause_toggles_active_log() {
    let mut state = init_state();
    assert_eq!(toggle_pause_logging(&mut state), None);
    start_new_log(&mut state, LogFile::new(false, "t.txt".to_string(), 0));
    assert_eq!(toggle_pause_logging(&mut state), Some(false));
    assert_eq!(toggle_pause_logging(&mut state), Some(true));
}

/// Starting a new log over an unsaved one reports the displacement so the
/// caller can warn.
#[test]
fn new_log_reports_displaced_unsaved() {
    let mut state = init_state();
    assert!(!start_new_log(&mut state, LogFile::new(false, "a.txt".to_string(), 0)));
    // the active log is clean: replacing it is silent
    assert!(!start_new_log(&mut state, LogFile::new(false, "b.txt".to_string(), 0)));
    state.log_state.active_log.as_mut().unwrap().write_line("x\n", 0);
    assert!(needs_save(&state));
    // the active log has unsaved changes: replacing it warns
    assert!(start_new_log(&mut state, LogFile::new(false, "c.txt".to_string(), 0)));
    assert!(!needs_save(&state));
}
