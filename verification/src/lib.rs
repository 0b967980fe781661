//! Verified core of a serial line-capture tool.
//!
//! The library holds the capture pipeline's logic: incremental framing of raw
//! bytes into newline-terminated lines (tolerant of UTF-8 sequences split
//! across reads), the buffered log writer with ANSI stripping and timestamp
//! prefixes, the shared runtime state with its idempotent quit protocol, the
//! connection supervisor's state machine, and the validation and merging of
//! settings. All I/O (serial port, terminal, files, dialogs, signals) lives
//! outside, in thin unverified glue that feeds this library plain values.

pub mod ansi;
pub mod args;
pub mod buffer;
pub mod clock;
pub mod commands;
pub mod constants;
pub mod error;
pub mod fmt;
pub mod log;
pub mod serial;
pub mod settings;
pub mod state;
pub mod utf8;
pub mod validation;
