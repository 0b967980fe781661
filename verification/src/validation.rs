//! Validation of startup settings: baud rates, port names, and destination
//! paths. Facts about the file system (existence, writability) are gathered by
//! the caller and passed in as plain values; the decisions are verified here.

use vstd::prelude::*;

use crate::error::SpewcapError;

verus! {

/// Facts about a destination file path, gathered by the caller from the file
/// system: whether the path is absolute, whether it already exists, and what
/// is known of its parent directory.
#[derive(Debug, Clone, Copy)]
pub struct PathFacts {
    /// The path is absolute.
    pub is_absolute: bool,
    /// The path itself already exists.
    pub exists: bool,
    /// The path has a parent component.
    pub has_parent: bool,
    /// The parent directory exists.
    pub parent_exists: bool,
    /// A file can be created in the parent directory.
    pub parent_writable: bool,
}

/// Facts about a directory path, gathered by the caller from the file system.
#[derive(Debug, Clone, Copy)]
pub struct DirFacts {
    /// The path exists.
    pub exists: bool,
    /// The path is a directory.
    pub is_dir: bool,
    /// A file can be created in the directory.
    pub writable: bool,
}

/// When a destination file path is accepted: a relative path that does not
/// exist yet needs a writable enclosing directory; an absolute path needs its
/// parent, if it has one, to exist and be writable; a path that already
/// exists is accepted as a destination.
pub open spec fn file_path_acceptable(f: PathFacts) -> bool {
    if !f.is_absolute && !f.exists {
        f.parent_writable
    } else if f.is_absolute {
        !f.has_parent || (f.parent_exists && f.parent_writable)
    } else {
        true
    }
}

/// When a directory path is accepted: it exists, is a directory, and a file
/// can be created in it.
pub open spec fn dir_acceptable(f: DirFacts) -> bool {
    f.exists && f.is_dir && f.writable
}

/// Whether a port name is among the available ports.
pub open spec fn port_in_list(port: Seq<char>, ports: Seq<Seq<char>>) -> bool {
    exists|i: int| 0 <= i < ports.len() && ports[i] == port
}

/// Accepts a port name exactly when it names one of the available ports.
pub fn validate_port_name(port_name: &str, available_ports: &Vec<String>) -> (r: Result<
    String,
    SpewcapError,
>)
    ensures
        port_in_list(port_name@, available_ports.deep_view()) <==> (r is Ok),
        (r is Ok) ==> r->Ok_0@ == port_name@,
        (r is Err) ==> (r->Err_0 is InvalidPort) && r->Err_0->InvalidPort_0@ == port_name@,
{
    let needle: String = port_name.to_owned();
    let n = available_ports.len();
    let mut i: usize = 0;
    while i < n
        invariant
            n == available_ports@.len(),
            i <= n,
            needle@ == port_name@,
            forall|j: int| 0 <= j < i ==> available_ports.deep_view()[j] != port_name@,
        decreases n - i,
    {
        if available_ports[i] == needle {
            proof {
                assert(available_ports.deep_view()[i as int] == port_name@);
            }
            return Ok(needle);
        }
        i = i + 1;
    }
    Err(SpewcapError::InvalidPort(needle))
}

/// Accepts a destination file path exactly when the gathered facts do.
pub fn validate_file_path(path: &str, facts: PathFacts) -> (r: Result<String, SpewcapError>)
    ensures
        file_path_acceptable(facts) <==> (r is Ok),
        (r is Ok) ==> r->Ok_0@ == path@,
        (r is Err) ==> (r->Err_0 is InvalidFilePath) && r->Err_0->InvalidFilePath_0@ == path@,
{
    if !facts.is_absolute && !facts.exists {
        if facts.parent_writable {
            Ok(path.to_owned())
        } else {
            Err(SpewcapError::InvalidFilePath(path.to_owned()))
        }
    } else if facts.is_absolute {
        if !facts.has_parent || (facts.parent_exists && facts.parent_writable) {
            Ok(path.to_owned())
        } else {
            Err(SpewcapError::InvalidFilePath(path.to_owned()))
        }
    } else {
        Ok(path.to_owned())
    }
}

/// Accepts a directory path exactly when it exists, is a directory, and is
/// writable.
pub fn validate_directory_path(path: &str, facts: DirFacts) -> (r: Result<String, SpewcapError>)
    ensures
        dir_acceptable(facts) <==> (r is Ok),
        (r is Ok) ==> r->Ok_0@ == path@,
        (r is Err) ==> (r->Err_0 is InvalidFilePath) && r->Err_0->InvalidFilePath_0@ == path@,
{
    if facts.exists && facts.is_dir && facts.writable {
        Ok(path.to_owned())
    } else {
        Err(SpewcapError::InvalidFilePath(path.to_owned()))
    }
}

/// The standard serial baud rates this tool accepts.
pub open spec fn is_standard_baud_rate(baud_rate: u32) -> bool {
    ||| baud_rate == 110
    ||| baud_rate == 300
    ||| baud_rate == 600
    ||| baud_rate == 1200
    ||| baud_rate == 2400
    ||| baud_rate == 4800
    ||| baud_rate == 9600
    ||| baud_rate == 14400
    ||| baud_rate == 19200
    ||| baud_rate == 38400
    ||| baud_rate == 57600
    ||| baud_rate == 115200
    ||| baud_rate == 230400
    ||| baud_rate == 460800
    ||| baud_rate == 921600
}

/// Accepts a baud rate exactly when it is one of the standard rates.
pub fn validate_baud_rate(baud_rate: u32) -> (r: Result<u32, SpewcapError>)
    ensures
        is_standard_baud_rate(baud_rate) <==> (r is Ok),
        (r is Ok) ==> r->Ok_0 == baud_rate,
        (r is Err) ==> r->Err_0 == SpewcapError::InvalidBaudRate(baud_rate),
{
    if baud_rate == 110 || baud_rate == 300 || baud_rate == 600 || baud_rate == 1200
        || baud_rate == 2400 || baud_rate == 4800 || baud_rate == 9600 || baud_rate == 14400
        || baud_rate == 19200 || baud_rate == 38400 || baud_rate == 57600 || baud_rate == 115200
        || baud_rate == 230400 || baud_rate == 460800 || baud_rate == 921600 {
        Ok(baud_rate)
    } else {
        Err(SpewcapError::InvalidBaudRate(baud_rate))
    }
}

} // verus!
