//! Tuning constants of the capture pipeline.

use vstd::prelude::*;

verus! {

/// Baud rate assumed when none is chosen anywhere.
pub const DEFAULT_BAUD_RATE: u32 = 115200;

/// Initial capacity of a line assembler's byte accumulator.
pub const DEFAULT_LINE_BUFFER_CAPACITY: usize = 8192;

/// Capacity above which a drained assembler gives memory back.
pub const LINE_BUFFER_HIGH_WATER: usize = 16384;

/// Retained-data bound under which giving memory back is worthwhile.
pub const LINE_BUFFER_SMALL_REMAINDER: usize = 4096;

/// Capacity far beyond normal bursts; a safety valve resets to the default.
pub const LINE_BUFFER_RESET_LIMIT: usize = 65536;

/// Size of one serial read.
pub const SERIAL_READ_BUFFER_SIZE: usize = 2048;

/// A log flushes its write buffer after this many written lines.
pub const LOG_FLUSH_INTERVAL: u64 = 10;

/// The capture loop yields after this many lines drained in one burst.
pub const HIGH_THROUGHPUT_YIELD_THRESHOLD: usize = 100;

/// Poll period of the command loop, in milliseconds.
pub const COMMAND_POLL_PERIOD_MS: u64 = 100;

/// Timeout of one serial read, in milliseconds.
pub const SERIAL_READ_TIMEOUT_MS: u64 = 100;

/// Sleep after a zero-byte read, in milliseconds.
pub const SERIAL_NO_DATA_SLEEP_MS: u64 = 10;

/// Delay before retrying a failed open, in milliseconds.
pub const SERIAL_RETRY_DELAY_MS: u64 = 500;

/// Poll period of the signal monitor, in milliseconds.
pub const SIGNAL_MONITOR_SLEEP_MS: u64 = 100;

/// Milliseconds in an hour.
pub const MILLIS_PER_HOUR: u64 = 3600000;

/// Milliseconds in a minute.
pub const MILLIS_PER_MINUTE: u64 = 60000;

/// Milliseconds in a second.
pub const MILLIS_PER_SECOND: u64 = 1000;

} // verus!
