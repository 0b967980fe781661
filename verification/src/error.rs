//! The library's error type. Errors carry plain values only; the unverified
//! glue renders them for the operator.

use vstd::prelude::*;

verus! {

/// Everything that can go wrong across the capture pipeline.
#[derive(Debug, Clone, PartialEq, Eq)]
pub enum SpewcapError {
    /// The serial transport reported a failure.
    SerialPort(String),
    /// A file operation failed.
    Io(String),
    /// A setting could not be resolved.
    Settings(String),
    /// An interactive selection failed or was abandoned.
    Dialog(String),
    /// The configuration file could not be parsed.
    TomlParse(String),
    /// A worker thread ended abnormally.
    ThreadJoin(String),
    /// The terminal could not be driven.
    Terminal(String),
    /// The requested baud rate is not a standard rate.
    InvalidBaudRate(u32),
    /// The named port is not among the available ports.
    InvalidPort(String),
    /// The destination path cannot receive a file.
    InvalidFilePath(String),
    /// The active log could not be driven.
    Log(String),
    /// Signal handling could not be set up.
    Signal(String),
    /// No serial ports were found on the machine.
    NoPortsFound,
}

} // verus!
