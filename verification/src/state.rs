//! The process-wide coordination state and the idempotent quit protocol.
//!
//! One `SharedState` is created at startup and shared with every thread; the
//! unverified glue wraps it for real concurrency (the two flags as atomics,
//! the log slot behind a lock) and funnels every mutation through the
//! transition functions here. The quit flag is monotonic: once set it is
//! never cleared, and a second quit request finds it set and performs no
//! further destructive action.

use vstd::prelude::*;

use crate::log::{cleanup_step, toggled, LogFile};

verus! {

/// The lock-protected part of the shared state: the active log, if any.
pub struct LogState {
    /// The log currently receiving captured lines, when one is open.
    pub active_log: Option<LogFile>,
}

/// Process-wide coordination object shared by every thread.
pub struct SharedState {
    /// Whether captured lines are currently dropped instead of delivered.
    pub capture_paused: bool,
    /// Monotonic quit flag; every long-running loop polls it.
    pub quit_requested: bool,
    /// The active-log slot.
    pub log_state: LogState,
}

/// The state every run starts from: capturing, not quitting, no log.
pub fn init_state() -> (s: SharedState)
    ensures
        !s.capture_paused,
        !s.quit_requested,
        s.log_state.active_log is None,
{
    SharedState { capture_paused: false, quit_requested: false, log_state: LogState { active_log: None } }
}

/// Whether a quit has been requested.
pub fn quit_requested(state: &SharedState) -> (r: bool)
    ensures
        r == state.quit_requested,
{
    state.quit_requested
}

/// What one quit request does: it raises the quit flag and touches nothing
/// else, so the flag is monotonic.
pub open spec fn quit_step(pre: SharedState, post: SharedState) -> bool {
    &&& post.quit_requested
    &&& post.capture_paused == pre.capture_paused
    &&& post.log_state == pre.log_state
}

/// Raises the quit flag. Loops observe it on their next poll.
pub fn request_quit_with_state(state: &mut SharedState)
    ensures
        quit_step(*old(state), *final(state)),
{
    state.quit_requested = true;
}

/// A second quit request finds the flag already set and changes nothing the
/// first did not already establish.
pub proof fn lemma_quit_idempotent(
    initial: SharedState,
    after_first: SharedState,
    after_second: SharedState,
)
    requires
        quit_step(initial, after_first),
        quit_step(after_first, after_second),
    ensures
        after_first.quit_requested,
        after_second.quit_requested,
        after_second.capture_paused == initial.capture_paused,
        after_second.log_state == initial.log_state,
{
}

/// Flips whether capture is paused and reports the new value.
pub fn toggle_pause_capture(state: &mut SharedState) -> (now_paused: bool)
    ensures
        final(state).capture_paused == !old(state).capture_paused,
        now_paused == final(state).capture_paused,
        final(state).quit_requested == old(state).quit_requested,
        final(state).log_state == old(state).log_state,
{
    state.capture_paused = !state.capture_paused;
    state.capture_paused
}

/// Flips whether the active log records lines, independently of capture.
/// Reports the new value, or nothing when no log is open.
pub fn toggle_pause_logging(state: &mut SharedState) -> (r: Option<bool>)
    ensures
        final(state).capture_paused == old(state).capture_paused,
        final(state).quit_requested == old(state).quit_requested,
        (old(state).log_state.active_log is None) ==> {
            &&& r is None
            &&& final(state).log_state == old(state).log_state
        },
        (old(state).log_state.active_log is Some) ==> {
            &&& (final(state).log_state.active_log is Some)
            &&& toggled(
                old(state).log_state.active_log->0.log(),
                final(state).log_state.active_log->0.log(),
            )
            &&& final(state).log_state.active_log->0.spec_cleanup_on_drop() == old(
                state,
            ).log_state.active_log->0.spec_cleanup_on_drop()
            &&& r == Some(final(state).log_state.active_log->0.log().spec_enabled())
        },
{
    match &mut state.log_state.active_log {
        Some(log) => {
            let now_enabled = log.toggle();
            Some(now_enabled)
        },
        None => None,
    }
}

/// Installs a new active log. Reports whether it displaced a log that still
/// had unsaved changes, so the caller can warn instead of discarding
/// silently.
pub fn start_new_log(state: &mut SharedState, new_log: LogFile) -> (had_unsaved: bool)
    ensures
        final(state).log_state.active_log == Some(new_log),
        final(state).capture_paused == old(state).capture_paused,
        final(state).quit_requested == old(state).quit_requested,
        had_unsaved == {
            &&& (old(state).log_state.active_log is Some)
            &&& old(state).log_state.active_log->0.log().spec_unsaved()
        },
{
    let had_unsaved = match &state.log_state.active_log {
        Some(log) => log.has_unsaved_changes(),
        None => false,
    };
    state.log_state.active_log = Some(new_log);
    had_unsaved
}

/// Whether the quit protocol must run the save flow first: an active log
/// exists and holds unsaved changes.
pub fn needs_save(state: &SharedState) -> (r: bool)
    ensures
        r == ((state.log_state.active_log is Some)
            && state.log_state.active_log->0.log().spec_unsaved()),
{
    match &state.log_state.active_log {
        Some(log) => log.has_unsaved_changes(),
        None => false,
    }
}

/// Runs the one-shot cleanup decision on the active log, if any: returns the
/// bytes still owed to its temp file when the file is to be deleted, nothing
/// when there is no log or its guard is already disarmed. Safe to invoke from
/// every shutdown path; only the first armed call reports a delete.
pub fn emergency_cleanup_logs(state: &mut SharedState) -> (r: Option<Vec<u8>>)
    ensures
        final(state).capture_paused == old(state).capture_paused,
        final(state).quit_requested == old(state).quit_requested,
        (old(state).log_state.active_log is None) ==> {
            &&& r is None
            &&& final(state).log_state == old(state).log_state
        },
        (old(state).log_state.active_log is Some) ==> {
            &&& (final(state).log_state.active_log is Some)
            &&& cleanup_step(
                old(state).log_state.active_log->0,
                final(state).log_state.active_log->0,
                r is Some,
            )
            &&& ((r is Some) ==> r->0@ == old(state).log_state.active_log->0.log().spec_pending()
                + old(state).log_state.active_log->0.log().spec_buffered())
        },
{
    match &mut state.log_state.active_log {
        Some(log) => log.cleanup_temp_file(),
        None => None,
    }
}

} // verus!
