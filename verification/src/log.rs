//! The buffered, batch-flushed log writer and its temp-file guard.
//!
//! A `Log` formats each captured line (ANSI stripping, optional timestamp
//! prefix) and stages the bytes through three regions: `buffered` holds lines
//! not yet due to the backing file, `pending` holds bytes due but not yet
//! taken by the caller, and the ghost `sunk` stream records every byte the
//! caller has taken for the backing file. Every tenth write moves `buffered`
//! to `pending`, bounding data loss without a flush per line. The caller owns
//! the actual file handle: it drains `pending` with `take_pending` and appends
//! the bytes to the temp file, so the file's content is exactly `sunk`.
//!
//! A `LogFile` wraps a `Log` with the temp file's path and a one-shot cleanup
//! guard: the backing file is deleted at most once, and an explicit successful
//! save transfers ownership of the bytes away from the guard.

use vstd::prelude::*;
use vstd::string::StrSliceExecFns;
use vstd::utf8::{decode_utf8, encode_utf8};

use crate::ansi::{strip_ansi, strip_ansi_bytes};
use crate::clock::{local_time_parts, TimeParts};
use crate::constants::LOG_FLUSH_INTERVAL;
use crate::error::SpewcapError;
use crate::fmt::{
    format_log_filename, format_timestamp, lemma_log_filename_ascii, log_filename_bytes,
    timestamp_bytes,
};
use crate::utf8::{lemma_ascii_bytes_decode, string_from_utf8};

verus! {

/// Appends a byte slice to a byte vector.
pub fn append_bytes(dst: &mut Vec<u8>, src: &[u8])
    ensures
        final(dst)@ == old(dst)@ + src@,
{
    let mut i: usize = 0;
    while i < src.len()
        invariant
            i <= src@.len(),
            dst@ == old(dst)@ + src@.subrange(0, i as int),
        decreases src@.len() - i,
    {
        dst.push(src[i]);
        proof {
            assert(dst@ =~= old(dst)@ + src@.subrange(0, i + 1 as int));
        }
        i = i + 1;
    }
    proof {
        assert(dst@ =~= old(dst)@ + src@);
    }
}

/// Milliseconds elapsed between log-open and a later clock reading; a clock
/// that went backwards counts as no elapsed time.
pub open spec fn elapsed_since(now_ms: u64, start_ms: u64) -> u64 {
    if now_ms >= start_ms {
        (now_ms - start_ms) as u64
    } else {
        0
    }
}

/// What one captured line contributes to the log: its bytes with escape
/// sequences stripped, behind a `[HH:MM:SS:mmmms] ` prefix when stamped.
pub open spec fn formatted_line(raw: Seq<char>, stamp: Option<u64>) -> Seq<u8> {
    match stamp {
        None => strip_ansi(encode_utf8(raw)),
        Some(elapsed_ms) => seq![91u8] + timestamp_bytes(elapsed_ms) + seq![93u8, 32u8]
            + strip_ansi(encode_utf8(raw)),
    }
}

/// A buffered writer of formatted capture lines.
pub struct Log {
    filename: String,
    enabled: bool,
    unsaved_changes: bool,
    prepend_timestamps: bool,
    start_ms: u64,
    flush_counter: u64,
    buffered: Vec<u8>,
    pending: Vec<u8>,
    sunk: Ghost<Seq<u8>>,
}

impl Log {
    /// The log's generated filename.
    pub closed spec fn spec_filename(&self) -> Seq<char> {
        self.filename@
    }

    /// Whether captured lines are currently written to this log.
    pub closed spec fn spec_enabled(&self) -> bool {
        self.enabled
    }

    /// Whether bytes were written since the last successful save.
    pub closed spec fn spec_unsaved(&self) -> bool {
        self.unsaved_changes
    }

    /// Whether lines carry a timestamp prefix.
    pub closed spec fn spec_timestamps(&self) -> bool {
        self.prepend_timestamps
    }

    /// Clock reading at log-open, in milliseconds.
    pub closed spec fn spec_start_ms(&self) -> u64 {
        self.start_ms
    }

    /// Writes since the last batch flush.
    pub closed spec fn spec_flush_counter(&self) -> u64 {
        self.flush_counter
    }

    /// Bytes formatted but not yet due to the backing file.
    pub closed spec fn spec_buffered(&self) -> Seq<u8> {
        self.buffered@
    }

    /// Bytes due to the backing file, awaiting the caller.
    pub closed spec fn spec_pending(&self) -> Seq<u8> {
        self.pending@
    }

    /// Bytes the caller has taken for the backing file: the file's content.
    pub closed spec fn spec_sunk(&self) -> Seq<u8> {
        self.sunk@
    }

    /// Everything this log was ever given, in order.
    pub open spec fn content(&self) -> Seq<u8> {
        self.spec_sunk() + self.spec_pending() + self.spec_buffered()
    }

    /// The timestamp a line written at `now_ms` carries, if any.
    pub open spec fn stamp_at(&self, now_ms: u64) -> Option<u64> {
        if self.spec_timestamps() {
            Some(elapsed_since(now_ms, self.spec_start_ms()))
        } else {
            None
        }
    }

    /// A fresh, empty, enabled log.
    pub fn new(prepend_timestamps: bool, filename: String, start_ms: u64) -> (r: Log)
        ensures
            r.spec_filename() == filename@,
            r.spec_enabled(),
            !r.spec_unsaved(),
            r.spec_timestamps() == prepend_timestamps,
            r.spec_start_ms() == start_ms,
            r.spec_flush_counter() == 0,
            r.spec_buffered() == Seq::<u8>::empty(),
            r.spec_pending() == Seq::<u8>::empty(),
            r.spec_sunk() == Seq::<u8>::empty(),
    {
        Log {
            filename,
            enabled: true,
            unsaved_changes: false,
            prepend_timestamps,
            start_ms,
            flush_counter: 0,
            buffered: Vec::new(),
            pending: Vec::new(),
            sunk: Ghost(Seq::empty()),
        }
    }

    /// Flips whether lines are written to this log and reports the new state.
    pub fn toggle(&mut self) -> (now_enabled: bool)
        ensures
            toggled(*old(self), *final(self)),
            now_enabled == final(self).spec_enabled(),
    {
        self.enabled = !self.enabled;
        self.enabled
    }

    /// Whether captured lines are currently written to this log.
    pub fn is_enabled(&self) -> (r: bool)
        ensures
            r == self.spec_enabled(),
    {
        self.enabled
    }

    /// Whether bytes were written since the last successful save.
    pub fn has_unsaved_changes(&self) -> (r: bool)
        ensures
            r == self.spec_unsaved(),
    {
        self.unsaved_changes
    }

    /// The log's generated filename.
    pub fn get_filename(&self) -> (r: &str)
        ensures
            r@ == self.spec_filename(),
    {
        self.filename.as_str()
    }

    /// Formats one captured line and appends it to the log: escape sequences
    /// are stripped, a timestamp prefix is added when enabled, the unsaved
    /// mark is set, and every tenth write releases the buffered bytes to
    /// `pending` for the caller to write out.
    pub fn write_line(&mut self, raw_line: &str, now_ms: u64)
        ensures
            final(self).content() == old(self).content() + formatted_line(
                raw_line@,
                old(self).stamp_at(now_ms),
            ),
            final(self).spec_unsaved(),
            final(self).spec_enabled() == old(self).spec_enabled(),
            final(self).spec_sunk() == old(self).spec_sunk(),
            unchanged_config(*old(self), *final(self)),
            old(self).spec_flush_counter() + 1 >= LOG_FLUSH_INTERVAL ==> {
                &&& final(self).spec_flush_counter() == 0
                &&& final(self).spec_buffered() == Seq::<u8>::empty()
                &&& final(self).spec_pending() == old(self).spec_pending() + old(
                    self,
                ).spec_buffered() + formatted_line(raw_line@, old(self).stamp_at(now_ms))
            },
            old(self).spec_flush_counter() + 1 < LOG_FLUSH_INTERVAL ==> {
                &&& final(self).spec_flush_counter() == old(self).spec_flush_counter() + 1
                &&& final(self).spec_buffered() == old(self).spec_buffered() + formatted_line(
                    raw_line@,
                    old(self).stamp_at(now_ms),
                )
                &&& final(self).spec_pending() == old(self).spec_pending()
            },
    {
        let raw_bytes = raw_line.as_bytes_vec();
        let stripped = strip_ansi_bytes(raw_bytes.as_slice());
        let mut line: Vec<u8> = Vec::new();
        if self.prepend_timestamps {
            let elapsed = if now_ms >= self.start_ms {
                now_ms - self.start_ms
            } else {
                0
            };
            let stamp = format_timestamp(elapsed);
            line.push(91);
            append_bytes(&mut line, stamp.as_slice());
            line.push(93);
            line.push(32);
        }
        append_bytes(&mut line, stripped.as_slice());
        proof {
            assert(line@ =~= formatted_line(raw_line@, old(self).stamp_at(now_ms)));
        }
        self.unsaved_changes = true;
        if self.flush_counter >= LOG_FLUSH_INTERVAL - 1 {
            append_bytes(&mut self.pending, self.buffered.as_slice());
            self.buffered.clear();
            append_bytes(&mut self.pending, line.as_slice());
            self.flush_counter = 0;
            proof {
                assert(self.content() =~= old(self).content() + formatted_line(
                    raw_line@,
                    old(self).stamp_at(now_ms),
                ));
            }
        } else {
            append_bytes(&mut self.buffered, line.as_slice());
            self.flush_counter = self.flush_counter + 1;
            proof {
                assert(self.content() =~= old(self).content() + formatted_line(
                    raw_line@,
                    old(self).stamp_at(now_ms),
                ));
            }
        }
    }

    /// Releases all buffered bytes to `pending` and resets the batch counter.
    pub fn force_flush(&mut self)
        ensures
            final(self).spec_pending() == old(self).spec_pending() + old(self).spec_buffered(),
            final(self).spec_buffered() == Seq::<u8>::empty(),
            final(self).spec_flush_counter() == 0,
            final(self).spec_sunk() == old(self).spec_sunk(),
            final(self).content() == old(self).content(),
            final(self).spec_unsaved() == old(self).spec_unsaved(),
            unchanged_config(*old(self), *final(self)),
            final(self).spec_enabled() == old(self).spec_enabled(),
    {
        append_bytes(&mut self.pending, self.buffered.as_slice());
        self.buffered.clear();
        self.flush_counter = 0;
        proof {
            assert(self.content() =~= old(self).content());
        }
    }

    /// Hands the caller the bytes due to the backing file; they count as the
    /// file's content from here on.
    pub fn take_pending(&mut self) -> (r: Vec<u8>)
        ensures
            r@ == old(self).spec_pending(),
            final(self).spec_pending() == Seq::<u8>::empty(),
            final(self).spec_sunk() == old(self).spec_sunk() + r@,
            final(self).spec_buffered() == old(self).spec_buffered(),
            final(self).spec_flush_counter() == old(self).spec_flush_counter(),
            final(self).content() == old(self).content(),
            final(self).spec_unsaved() == old(self).spec_unsaved(),
            unchanged_config(*old(self), *final(self)),
            final(self).spec_enabled() == old(self).spec_enabled(),
    {
        let mut taken: Vec<u8> = Vec::new();
        core::mem::swap(&mut taken, &mut self.pending);
        self.sunk = Ghost(self.sunk@ + taken@);
        proof {
            assert(self.content() =~= old(self).content());
        }
        taken
    }

    /// Applies the outcome of copying the backing file to a destination the
    /// operator chose: a successful copy clears the unsaved mark; a failed
    /// one changes nothing and surfaces the failure.
    pub fn save_as(&mut self, copy_result: Result<(), String>) -> (r: Result<(), SpewcapError>)
        ensures
            (copy_result is Ok) ==> {
                &&& (r is Ok)
                &&& !final(self).spec_unsaved()
                &&& final(self).spec_enabled() == old(self).spec_enabled()
                &&& final(self).spec_buffered() == old(self).spec_buffered()
                &&& final(self).spec_pending() == old(self).spec_pending()
                &&& final(self).spec_sunk() == old(self).spec_sunk()
                &&& final(self).spec_flush_counter() == old(self).spec_flush_counter()
                &&& unchanged_config(*old(self), *final(self))
            },
            (copy_result is Err) ==> {
                &&& *final(self) == *old(self)
                &&& r == Err::<(), SpewcapError>(
                    SpewcapError::Io(copy_result->Err_0),
                )
            },
    {
        match copy_result {
            Ok(()) => {
                self.unsaved_changes = false;
                Ok(())
            },
            Err(message) => Err(SpewcapError::Io(message)),
        }
    }
}

/// The fields `toggle` leaves alone, plus the flipped switch.
pub open spec fn toggled(pre: Log, post: Log) -> bool {
    &&& post.spec_enabled() == !pre.spec_enabled()
    &&& post.spec_unsaved() == pre.spec_unsaved()
    &&& post.spec_buffered() == pre.spec_buffered()
    &&& post.spec_pending() == pre.spec_pending()
    &&& post.spec_sunk() == pre.spec_sunk()
    &&& post.spec_flush_counter() == pre.spec_flush_counter()
    &&& unchanged_config(pre, post)
}

/// The configuration a log never changes after creation.
pub open spec fn unchanged_config(pre: Log, post: Log) -> bool {
    &&& post.spec_filename() == pre.spec_filename()
    &&& post.spec_timestamps() == pre.spec_timestamps()
    &&& post.spec_start_ms() == pre.spec_start_ms()
}

/// Toggling a log's enabled state twice returns it to its original value,
/// and touches nothing else.
pub proof fn lemma_toggle_twice(first: Log, second: Log, third: Log)
    requires
        toggled(first, second),
        toggled(second, third),
    ensures
        third.spec_enabled() == first.spec_enabled(),
        third.spec_unsaved() == first.spec_unsaved(),
        third.content() == first.content(),
        unchanged_config(first, third),
{
}

/// A generated default filename: `log_YYYYMMDD_HHMMSS.txt` for the local time
/// at the call.
pub fn default_log_filename() -> (r: String)
    ensures
        exists|t: TimeParts| t.wf() && r@ == decode_utf8(#[trigger] log_filename_bytes(t)),
{
    let t = local_time_parts();
    let bytes = format_log_filename(&t);
    proof {
        lemma_log_filename_ascii(t);
        lemma_ascii_bytes_decode(bytes@);
    }
    match string_from_utf8(bytes) {
        Some(s) => {
            proof {
                assert(t.wf() && s@ == decode_utf8(log_filename_bytes(t)));
            }
            s
        },
        None => {
            proof {
                assert(false);
            }
            String::new()
        },
    }
}

/// A log together with its temp file's path and the one-shot cleanup guard.
pub struct LogFile {
    log: Log,
    temp_file_path: String,
    cleanup_on_drop: bool,
}

/// What one run of the cleanup decision does: it reports a delete exactly
/// when the guard was still armed, disarms the guard, drains both byte
/// stages so the file is flushed before removal, and touches nothing else.
pub open spec fn cleanup_step(pre: LogFile, post: LogFile, deleted: bool) -> bool {
    &&& deleted == pre.spec_cleanup_on_drop()
    &&& !post.spec_cleanup_on_drop()
    &&& post.spec_temp_file_path() == pre.spec_temp_file_path()
    &&& post.log().content() == pre.log().content()
    &&& post.log().spec_unsaved() == pre.log().spec_unsaved()
    &&& post.log().spec_enabled() == pre.log().spec_enabled()
    &&& unchanged_config(pre.log(), post.log())
    &&& (deleted ==> post.log().spec_buffered() == Seq::<u8>::empty()
        && post.log().spec_pending() == Seq::<u8>::empty())
    &&& (!deleted ==> post == pre)
}

impl LogFile {
    /// The wrapped log.
    pub closed spec fn log(&self) -> Log {
        self.log
    }

    /// Path of the temp file backing this log.
    pub closed spec fn spec_temp_file_path(&self) -> Seq<char> {
        self.temp_file_path@
    }

    /// Whether the temp file is still owed a deletion at shutdown.
    pub closed spec fn spec_cleanup_on_drop(&self) -> bool {
        self.cleanup_on_drop
    }

    /// A fresh guarded log whose temp file carries the log's filename.
    pub fn new(prepend_timestamps: bool, filename: String, start_ms: u64) -> (r: LogFile)
        ensures
            r.log().spec_filename() == filename@,
            r.spec_temp_file_path() == filename@,
            r.spec_cleanup_on_drop(),
            r.log().spec_enabled(),
            !r.log().spec_unsaved(),
            r.log().spec_timestamps() == prepend_timestamps,
            r.log().spec_start_ms() == start_ms,
            r.log().spec_flush_counter() == 0,
            r.log().content() == Seq::<u8>::empty(),
            r.log().spec_buffered() == Seq::<u8>::empty(),
            r.log().spec_pending() == Seq::<u8>::empty(),
            r.log().spec_sunk() == Seq::<u8>::empty(),
    {
        let temp_file_path = filename.clone();
        let log = Log::new(prepend_timestamps, filename, start_ms);
        LogFile { log, temp_file_path, cleanup_on_drop: true }
    }

    /// Disarms the cleanup guard: the backing file will be kept.
    pub fn disable_cleanup(&mut self)
        ensures
            !final(self).spec_cleanup_on_drop(),
            final(self).log() == old(self).log(),
            final(self).spec_temp_file_path() == old(self).spec_temp_file_path(),
    {
        self.cleanup_on_drop = false;
    }

    /// Decides the temp file's fate at shutdown. Returns the bytes still owed
    /// to the file when it is to be deleted (flush before removal), or
    /// nothing when the guard was already disarmed — so duplicate shutdown
    /// paths never delete twice.
    pub fn cleanup_temp_file(&mut self) -> (r: Option<Vec<u8>>)
        ensures
            cleanup_step(*old(self), *final(self), r is Some),
            (r is Some) ==> r->0@ == old(self).log().spec_pending() + old(
                self,
            ).log().spec_buffered(),
            (r is None) ==> *final(self) == *old(self),
    {
        if self.cleanup_on_drop {
            self.log.force_flush();
            let bytes = self.log.take_pending();
            self.cleanup_on_drop = false;
            Some(bytes)
        } else {
            None
        }
    }

    /// Releases and hands out every byte not yet in the backing file.
    pub fn ensure_flushed(&mut self) -> (r: Vec<u8>)
        ensures
            r@ == old(self).log().spec_pending() + old(self).log().spec_buffered(),
            final(self).log().spec_buffered() == Seq::<u8>::empty(),
            final(self).log().spec_pending() == Seq::<u8>::empty(),
            final(self).log().content() == old(self).log().content(),
            final(self).log().spec_sunk() == old(self).log().content(),
            final(self).log().spec_unsaved() == old(self).log().spec_unsaved(),
            final(self).log().spec_enabled() == old(self).log().spec_enabled(),
            unchanged_config(old(self).log(), final(self).log()),
            final(self).spec_cleanup_on_drop() == old(self).spec_cleanup_on_drop(),
            final(self).spec_temp_file_path() == old(self).spec_temp_file_path(),
    {
        self.log.force_flush();
        let r = self.log.take_pending();
        proof {
            assert(r@ =~= old(self).log().spec_pending() + old(self).log().spec_buffered());
            assert(self.log.spec_sunk() =~= old(self).log().content());
        }
        r
    }

    /// Applies the outcome of copying the temp file to the operator's chosen
    /// destination: a successful save clears the unsaved mark and disarms the
    /// cleanup guard (ownership of the bytes moves to the saved path); a
    /// failed one changes nothing and surfaces the failure.
    pub fn save_as_and_keep(&mut self, copy_result: Result<(), String>) -> (r: Result<
        (),
        SpewcapError,
    >)
        ensures
            (copy_result is Ok) ==> {
                &&& (r is Ok)
                &&& !final(self).log().spec_unsaved()
                &&& !final(self).spec_cleanup_on_drop()
                &&& final(self).log().spec_enabled() == old(self).log().spec_enabled()
                &&& final(self).log().content() == old(self).log().content()
                &&& final(self).log().spec_buffered() == old(self).log().spec_buffered()
                &&& final(self).log().spec_pending() == old(self).log().spec_pending()
                &&& final(self).log().spec_sunk() == old(self).log().spec_sunk()
                &&& unchanged_config(old(self).log(), final(self).log())
                &&& final(self).spec_temp_file_path() == old(self).spec_temp_file_path()
            },
            (copy_result is Err) ==> {
                &&& *final(self) == *old(self)
                &&& r == Err::<(), SpewcapError>(
                    SpewcapError::Io(copy_result->Err_0),
                )
            },
    {
        let result = self.log.save_as(copy_result);
        if result.is_ok() {
            self.disable_cleanup();
        }
        result
    }

    /// Whether captured lines are currently written to this log.
    pub fn is_enabled(&self) -> (r: bool)
        ensures
            r == self.log().spec_enabled(),
    {
        self.log.is_enabled()
    }

    /// Whether bytes were written since the last successful save.
    pub fn has_unsaved_changes(&self) -> (r: bool)
        ensures
            r == self.log().spec_unsaved(),
    {
        self.log.has_unsaved_changes()
    }

    /// The log's generated filename.
    pub fn get_filename(&self) -> (r: &str)
        ensures
            r@ == self.log().spec_filename(),
    {
        self.log.get_filename()
    }

    /// Flips whether lines are written to this log and reports the new state.
    pub fn toggle(&mut self) -> (now_enabled: bool)
        ensures
            toggled(old(self).log(), final(self).log()),
            now_enabled == final(self).log().spec_enabled(),
            final(self).spec_cleanup_on_drop() == old(self).spec_cleanup_on_drop(),
            final(self).spec_temp_file_path() == old(self).spec_temp_file_path(),
    {
        self.log.toggle()
    }

    /// Formats one captured line and appends it to the wrapped log.
    pub fn write_line(&mut self, raw_line: &str, now_ms: u64)
        ensures
            final(self).log().content() == old(self).log().content() + formatted_line(
                raw_line@,
                old(self).log().stamp_at(now_ms),
            ),
            final(self).log().spec_unsaved(),
            final(self).log().spec_enabled() == old(self).log().spec_enabled(),
            final(self).log().spec_sunk() == old(self).log().spec_sunk(),
            unchanged_config(old(self).log(), final(self).log()),
            final(self).spec_cleanup_on_drop() == old(self).spec_cleanup_on_drop(),
            final(self).spec_temp_file_path() == old(self).spec_temp_file_path(),
    {
        self.log.write_line(raw_line, now_ms);
    }

    /// Hands the caller the bytes due to the backing file.
    pub fn take_pending(&mut self) -> (r: Vec<u8>)
        ensures
            r@ == old(self).log().spec_pending(),
            final(self).log().spec_pending() == Seq::<u8>::empty(),
            final(self).log().spec_sunk() == old(self).log().spec_sunk() + r@,
            final(self).log().spec_buffered() == old(self).log().spec_buffered(),
            final(self).log().content() == old(self).log().content(),
            final(self).log().spec_unsaved() == old(self).log().spec_unsaved(),
            final(self).log().spec_enabled() == old(self).log().spec_enabled(),
            unchanged_config(old(self).log(), final(self).log()),
            final(self).spec_cleanup_on_drop() == old(self).spec_cleanup_on_drop(),
            final(self).spec_temp_file_path() == old(self).spec_temp_file_path(),
    {
        self.log.take_pending()
    }
}

/// Running the cleanup decision twice deletes at most once: the second run
/// reports no delete and changes nothing, whatever order shutdown paths race
/// into it.
pub proof fn lemma_cleanup_runs_once(
    initial: LogFile,
    after_first: LogFile,
    after_second: LogFile,
    first_deleted: bool,
    second_deleted: bool,
)
    requires
        cleanup_step(initial, after_first, first_deleted),
        cleanup_step(after_first, after_second, second_deleted),
    ensures
        !second_deleted,
        after_second.log().content() == initial.log().content(),
{
}

} // verus!
