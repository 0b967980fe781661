//! The connection supervisor: its state machine and the capture step.
//!
//! The unverified glue owns the port handle and the console; each loop
//! iteration asks the step functions here what to do next, and hands every
//! received chunk to `process_chunk`, which drives the line assembler, routes
//! completed lines to the console (unless capture is paused) and to the
//! active log (when one is open and enabled), and leaves the partial tail
//! buffered for the next read.

use vstd::prelude::*;

use crate::buffer::{
    decoded_line, decoded_lines, first_newline, lemma_first_newline_spec,
    lemma_no_line_without_newline, line_rest, LineBuffer,
};
use crate::log::{formatted_line, unchanged_config};
use crate::state::LogState;

verus! {

/// Where the supervisor stands with the device.
#[derive(Debug, Clone, Copy, PartialEq, Eq, Structural)]
pub enum ConnectionStatus {
    /// The port is open and reads are flowing.
    Connected,
    /// The port could not be opened.
    NotConnected,
    /// An open port failed mid-session.
    Disconnected,
}

/// What one read from the port came back with.
#[derive(Debug, Clone, Copy, PartialEq, Eq, Structural)]
pub enum ReadOutcome {
    /// This many bytes arrived.
    Data(usize),
    /// The read timed out; not an error.
    Timeout,
    /// The transport failed: the device is gone.
    Failed,
}

/// What the read loop does next.
#[derive(Debug, Clone, Copy, PartialEq, Eq, Structural)]
pub enum ReadAction {
    /// Quit was requested while still connected: leave without a disconnect
    /// notice.
    StopQuitting,
    /// Sleep briefly, then read again.
    Sleep,
    /// Feed the received bytes through the assembler.
    Process,
    /// Read again at once; a timeout is not an error.
    Retry,
    /// The device is gone: leave and report a disconnect.
    StopDisconnected,
}

/// What the connect loop does next.
#[derive(Debug, Clone, Copy, PartialEq, Eq, Structural)]
pub enum ConnectAction {
    /// Quit was requested: leave without reconnecting.
    Exit,
    /// The port opened: run a read session.
    RunSession,
    /// The open failed on the first attempt of this episode: say so, wait,
    /// retry.
    RetryAfterNotice,
    /// The open failed again: wait and retry without repeating the notice.
    RetrySilently,
}

/// The read loop's decision table: quit wins; data is processed; a zero-byte
/// read is waited out; a timeout is retried, never treated as an error; a
/// failure ends the session as a disconnect.
pub open spec fn spec_read_step(quit: bool, outcome: ReadOutcome) -> ReadAction {
    if quit {
        ReadAction::StopQuitting
    } else {
        match outcome {
            ReadOutcome::Data(len) => if len == 0 {
                ReadAction::Sleep
            } else {
                ReadAction::Process
            },
            ReadOutcome::Timeout => ReadAction::Retry,
            ReadOutcome::Failed => ReadAction::StopDisconnected,
        }
    }
}

/// One decision of the read loop, exactly per the decision table.
pub fn read_step(quit: bool, outcome: &ReadOutcome) -> (r: ReadAction)
    ensures
        r == spec_read_step(quit, *outcome),
{
    if quit {
        ReadAction::StopQuitting
    } else {
        match outcome {
            ReadOutcome::Data(len) => {
                if *len == 0 {
                    ReadAction::Sleep
                } else {
                    ReadAction::Process
                }
            },
            ReadOutcome::Timeout => ReadAction::Retry,
            ReadOutcome::Failed => ReadAction::StopDisconnected,
        }
    }
}

/// The connect loop's decision table: quit wins; an open port starts a
/// session; a failed open is announced only on the first attempt of a
/// disconnect episode, then retried quietly after the backoff.
pub open spec fn spec_connect_step(quit: bool, open_succeeded: bool, first_attempt: bool) -> ConnectAction {
    if quit {
        ConnectAction::Exit
    } else if open_succeeded {
        ConnectAction::RunSession
    } else if first_attempt {
        ConnectAction::RetryAfterNotice
    } else {
        ConnectAction::RetrySilently
    }
}

/// One decision of the connect loop, exactly per the decision table.
pub fn connect_step(quit: bool, open_succeeded: bool, first_attempt: bool) -> (r: ConnectAction)
    ensures
        r == spec_connect_step(quit, open_succeeded, first_attempt),
{
    if quit {
        ConnectAction::Exit
    } else if open_succeeded {
        ConnectAction::RunSession
    } else if first_attempt {
        ConnectAction::RetryAfterNotice
    } else {
        ConnectAction::RetrySilently
    }
}

/// Whether the connect loop goes around again after a session ended with the
/// given status: a session that ends still connected means quit was
/// requested, so the loop leaves without a spurious disconnect notice.
pub fn after_session(status: &ConnectionStatus) -> (keep_going: bool)
    ensures
        keep_going == !(*status is Connected),
{
    match status {
        ConnectionStatus::Connected => false,
        ConnectionStatus::NotConnected => true,
        ConnectionStatus::Disconnected => true,
    }
}

/// What one burst of bytes adds to an enabled log: each decoded line,
/// formatted with the same stamp (the burst is routed at one clock reading).
pub open spec fn chunk_log_growth(p: Seq<u8>, stamp: Option<u64>) -> Seq<u8>
    decreases p.len(),
{
    let n = first_newline(p);
    if n < 0 {
        seq![]
    } else if n + 1 <= p.len() {
        match decoded_line(p.take(n + 1)) {
            Some(cs) => formatted_line(cs, stamp) + chunk_log_growth(p.skip(n + 1), stamp),
            None => chunk_log_growth(p.skip(n + 1), stamp),
        }
    } else {
        seq![]
    }
}

/// What routing one decoded line does to the log slot: nothing without an
/// open log; nothing but staying put when the log is disabled; otherwise the
/// log grows by exactly the formatted line and is marked unsaved.
pub open spec fn routed_line(pre: LogState, post: LogState, line: Seq<char>, now_ms: u64) -> bool {
    if pre.active_log is None {
        post == pre
    } else {
        let lf = pre.active_log->0;
        &&& (post.active_log is Some)
        &&& {
            let cf = post.active_log->0;
            if lf.log().spec_enabled() {
                &&& cf.log().content() == lf.log().content() + formatted_line(
                    line,
                    lf.log().stamp_at(now_ms),
                )
                &&& cf.log().spec_unsaved()
                &&& cf.log().spec_enabled()
                &&& cf.log().spec_sunk() == lf.log().spec_sunk()
                &&& unchanged_config(lf.log(), cf.log())
                &&& cf.spec_cleanup_on_drop() == lf.spec_cleanup_on_drop()
                &&& cf.spec_temp_file_path() == lf.spec_temp_file_path()
            } else {
                cf == lf
            }
        }
    }
}

/// Routes one completed line to the active log, when one is open and enabled.
fn route_line_to_log(log_state: &mut LogState, line: &str, now_ms: u64)
    ensures
        routed_line(*old(log_state), *final(log_state), line@, now_ms),
{
    match &mut log_state.active_log {
        Some(log) => {
            if log.is_enabled() {
                log.write_line(line, now_ms);
            }
        },
        None => {},
    }
}

/// Where the routing of one burst stands against where it started: given what
/// remains to drain, the log has grown by the lines already drained.
pub open spec fn log_routing_invariant(
    orig: LogState,
    cur: LogState,
    remaining: Seq<u8>,
    p0: Seq<u8>,
    now_ms: u64,
) -> bool {
    if orig.active_log is None {
        cur == orig
    } else {
        let lf = orig.active_log->0;
        &&& (cur.active_log is Some)
        &&& {
            let cf = cur.active_log->0;
            if lf.log().spec_enabled() {
                let stamp = lf.log().stamp_at(now_ms);
                &&& cf.log().content() + chunk_log_growth(remaining, stamp) == lf.log().content()
                    + chunk_log_growth(p0, stamp)
                &&& cf.log().spec_enabled()
                &&& cf.log().spec_sunk() == lf.log().spec_sunk()
                &&& cf.log().spec_unsaved() == (lf.log().spec_unsaved() || decoded_lines(
                    p0,
                ).len() != decoded_lines(remaining).len())
                &&& unchanged_config(lf.log(), cf.log())
                &&& cf.spec_cleanup_on_drop() == lf.spec_cleanup_on_drop()
                &&& cf.spec_temp_file_path() == lf.spec_temp_file_path()
            } else {
                cf == lf
            }
        }
    }
}

/// Feeds one received burst through the assembler and drains every complete
/// line: each decoded line goes to the console output and, when capture is
/// not paused and an enabled log is open, to that log; the partial tail stays
/// buffered. When capture is paused, lines are consumed but delivered
/// nowhere.
pub fn process_chunk(
    line_buffer: &mut LineBuffer,
    log_state: &mut LogState,
    capture_paused: bool,
    data: &[u8],
    data_size: usize,
    now_ms: u64,
) -> (console: Vec<String>)
    requires
        old(line_buffer).wf(),
        data_size <= data@.len(),
        old(line_buffer)@.len() + data_size <= usize::MAX,
    ensures
        final(line_buffer).wf(),
        final(line_buffer).written_bytes() == old(line_buffer).written_bytes() + data@.subrange(
            0,
            data_size as int,
        ),
        final(line_buffer)@ == line_rest(old(line_buffer)@ + data@.subrange(0, data_size as int)),
        first_newline(final(line_buffer)@) < 0,
        capture_paused ==> {
            &&& console@ == Seq::<String>::empty()
            &&& *final(log_state) == *old(log_state)
        },
        !capture_paused ==> {
            &&& console.deep_view() == decoded_lines(
                old(line_buffer)@ + data@.subrange(0, data_size as int),
            )
            &&& log_routing_invariant(
                *old(log_state),
                *final(log_state),
                final(line_buffer)@,
                old(line_buffer)@ + data@.subrange(0, data_size as int),
                now_ms,
            )
        },
{
    line_buffer.write(data, data_size);
    let ghost p0 = line_buffer@;
    let ghost orig_log = *log_state;
    let mut console: Vec<String> = Vec::new();
    proof {
        assert(console.deep_view() + decoded_lines(p0) =~= decoded_lines(p0));
        assert(log_routing_invariant(orig_log, *log_state, line_buffer@, p0, now_ms));
    }
    while line_buffer.has_complete_line()
        invariant
            line_buffer.wf(),
            line_buffer.written_bytes() == old(line_buffer).written_bytes() + data@.subrange(
                0,
                data_size as int,
            ),
            line_rest(line_buffer@) == line_rest(p0),
            p0 == old(line_buffer)@ + data@.subrange(0, data_size as int),
            capture_paused ==> {
                &&& console@ == Seq::<String>::empty()
                &&& *log_state == orig_log
            },
            !capture_paused ==> {
                &&& console.deep_view() + decoded_lines(line_buffer@) == decoded_lines(p0)
                &&& log_routing_invariant(orig_log, *log_state, line_buffer@, p0, now_ms)
            },
            orig_log == *old(log_state),
        decreases line_buffer@.len(),
    {
        let ghost pk = line_buffer@;
        let ghost n = first_newline(pk);
        let ghost line_bytes = pk.take(n + 1);
        let ghost rest = pk.skip(n + 1);
        proof {
            lemma_first_newline_spec(pk);
        }
        let line_opt = line_buffer.next_line();
        match line_opt {
            Some(line) => {
                proof {
                    assert(decoded_line(line_bytes) == Some(line@));
                    assert(decoded_lines(pk) == seq![line@] + decoded_lines(rest));
                }
                if !capture_paused {
                    let ghost pre_route = *log_state;
                    let ghost pre_console = console.deep_view();
                    route_line_to_log(log_state, line.as_str(), now_ms);
                    proof {
                        lemma_routing_step(
                            orig_log,
                            pre_route,
                            *log_state,
                            pk,
                            rest,
                            p0,
                            line@,
                            now_ms,
                        );
                    }
                    console.push(line);
                    proof {
                        assert(console.deep_view() =~= pre_console + seq![line@]);
                        assert(console.deep_view() + decoded_lines(rest) =~= pre_console + (
                        seq![line@] + decoded_lines(rest)));
                        assert(console.deep_view() + decoded_lines(rest) == decoded_lines(p0));
                    }
                }
            },
            None => {
                proof {
                    assert(decoded_line(line_bytes) is None);
                    assert(decoded_lines(pk) == decoded_lines(rest));
                    if !capture_paused && orig_log.active_log is Some {
                        let stamp = orig_log.active_log->0.log().stamp_at(now_ms);
                        assert(chunk_log_growth(pk, stamp) == chunk_log_growth(rest, stamp));
                    }
                }
            },
        }
    }
    proof {
        lemma_no_line_without_newline(line_buffer@);
        if !capture_paused {
            assert(decoded_lines(line_buffer@) =~= Seq::<Seq<char>>::empty());
            assert(console.deep_view() =~= decoded_lines(p0));
        }
    }
    console
}

/// One routed line advances the routing invariant from a burst with the line
/// at its front to the rest of the burst.
proof fn lemma_routing_step(
    orig: LogState,
    pre: LogState,
    post: LogState,
    pk: Seq<u8>,
    rest: Seq<u8>,
    p0: Seq<u8>,
    line: Seq<char>,
    now_ms: u64,
)
    requires
        log_routing_invariant(orig, pre, pk, p0, now_ms),
        first_newline(pk) >= 0,
        rest == pk.skip(first_newline(pk) + 1),
        decoded_line(pk.take(first_newline(pk) + 1)) == Some(line),
        decoded_lines(p0).len() >= decoded_lines(pk).len(),
        routed_line(pre, post, line, now_ms),
    ensures
        log_routing_invariant(orig, post, rest, p0, now_ms),
{
    lemma_first_newline_spec(pk);
    assert(decoded_lines(pk) == seq![line] + decoded_lines(rest));
    assert(decoded_lines(pk).len() == 1 + decoded_lines(rest).len());
    if orig.active_log is Some {
        let lf = orig.active_log->0;
        if lf.log().spec_enabled() {
            let stamp = lf.log().stamp_at(now_ms);
            let pf = pre.active_log->0;
            let cf = post.active_log->0;
            assert(pf.log().stamp_at(now_ms) == stamp);
            assert(chunk_log_growth(pk, stamp) == formatted_line(line, stamp) + chunk_log_growth(
                rest,
                stamp,
            ));
            assert(cf.log().content() + chunk_log_growth(rest, stamp) =~= pf.log().content()
                + chunk_log_growth(pk, stamp));
        }
    }
}

} // verus!
