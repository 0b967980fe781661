use spewcap::buffer::LineBuffer;
use spewcap::log::LogFile;
use spewcap::serial::{
    after_session, connect_step, process_chunk, read_step, ConnectAction, ConnectionStatus,
    ReadAction, ReadOutcome,
};
use spewcap::state::{init_state, LogState};

/// The device delivers "He" then "llo\n": exactly one line is emitted, and it
/// is appended to the enabled active log.
#[test]
fn split_burst_emits_one_line() {
    let mut buffer = LineBuffer::new();
    let mut log_state = LogState { active_log: Some(LogFile::new(false, "t.txt".to_string(), 0)) };
    let first = process_chunk(&mut buffer, &mut log_state, false, b"He", 2, 0);
    assert_eq!(first, Vec::<String>::new());
    let second = process_chunk(&mut buffer, &mut log_state, false, b"llo\n", 4, 0);
    assert_eq!(second, vec!["Hello\n".to_string()]);
    let log = log_state.active_log.as_mut().unwrap();
    assert_eq!(log.ensure_flushed(), b"Hello\n".to_vec());
}

/// A timeout between two bursts emits no line and surfaces no error; the next
/// burst completes the pending line.
#[test]
fn timeout_between_bursts_loses_nothing() {
    let mut buffer = LineBuffer::new();
    let mut log_state = LogState { active_log: None };
    let first = process_chunk(&mut buffer, &mut log_state, false, b"par", 3, 0);
    assert_eq!(first, Vec::<String>::new());
    // the read between the bursts timed out: the loop just retries
    assert_eq!(read_step(false, &ReadOutcome::Timeout), ReadAction::Retry);
    let second = process_chunk(&mut buffer, &mut log_state, false, b"tial\n", 5, 0);
    assert_eq!(second, vec!["partial\n".to_string()]);
}

/// Paused capture consumes lines but delivers them nowhere.
#[test]
fn paused_capture_delivers_nothing() {
    let mut buffer = LineBuffer::new();
    let mut log_state = LogState { active_log: Some(LogFile::new(false, "t.txt".to_string(), 0)) };
    let out = process_chunk(&mut buffer, &mut log_state, true, b"dropped\n", 8, 0);
    assert_eq!(out, Vec::<String>::new());
    let log = log_state.active_log.as_mut().unwrap();
    assert_eq!(log.ensure_flushed(), Vec::<u8>::new());
    assert!(!log.has_unsaved_changes());
}

/// A disabled log records nothing while console output continues.
#[test]
fn disabled_log_records_nothing() {
    let mut buffer = LineBuffer::new();
    let mut log_file = LogFile::new(false, "t.txt".to_string(), 0);
    log_file.toggle();
    let mut log_state = LogState { active_log: Some(log_file) };
    let out = process_chunk(&mut buffer, &mut log_state, false, b"shown\n", 6, 0);
    assert_eq!(out, vec!["shown\n".to_string()]);
    let log = log_state.active_log.as_mut().unwrap();
    assert_eq!(log.ensure_flushed(), Vec::<u8>::new());
}

/// The read loop's decision table.
#[test]
fn read_step_decisions() {
    assert_eq!(read_step(true, &ReadOutcome::Data(5)), ReadAction::StopQuitting);
    assert_eq!(read_step(false, &ReadOutcome::Data(0)), ReadAction::Sleep);
    assert_eq!(read_step(false, &ReadOutcome::Data(17)), ReadAction::Process);
    assert_eq!(read_step(false, &ReadOutcome::Timeout), ReadAction::Retry);
    assert_eq!(read_step(false, &ReadOutcome::Failed), ReadAction::StopDisconnected);
}

/// The connect loop's decision table: quit wins, an open port runs a session,
/// and the not-connected notice is printed only on the first failed attempt.
#[test]
fn connect_step_decisions() {
    assert_eq!(connect_step(true, true, true), ConnectAction::Exit);
    assert_eq!(connect_step(false, true, false), ConnectAction::RunSession);
    assert_eq!(connect_step(false, false, true), ConnectAction::RetryAfterNotice);
    assert_eq!(connect_step(false, false, false), ConnectAction::RetrySilently);
}

/// A session that ends still connected means quit: the loop leaves without a
/// disconnect notice; other endings go around again.
#[test]
fn session_end_decisions() {
    assert!(!after_session(&ConnectionStatus::Connected));
    assert!(after_session(&ConnectionStatus::Disconnected));
    assert!(after_session(&ConnectionStatus::NotConnected));
}

/// The capture loop observes the quit flag through the shared state.
#[test]
fn quit_flag_stops_reading() {
    let mut state = init_state();
    assert_eq!(read_step(state.quit_requested, &ReadOutcome::Data(4)), ReadAction::Process);
    spewcap::state::request_quit_with_state(&mut state);
    assert_eq!(read_step(state.quit_requested, &ReadOutcome::Data(4)), ReadAction::StopQuitting);
}
