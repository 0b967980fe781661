//! The reduced argument set of early builds, kept for compatibility.

use vstd::prelude::*;

verus! {

/// Switches of the reduced command line.
#[derive(Debug, Clone, Copy)]
pub struct Args {
    /// Prepend timestamps in the log.
    pub timestamps: bool,
    /// Start a log as soon as capture starts.
    pub logging: bool,
    /// List the available ports and leave.
    pub list: bool,
}

} // verus!
