use spewcap::error::SpewcapError;
use spewcap::validation::{
    validate_baud_rate, validate_directory_path, validate_file_path, validate_port_name, DirFacts,
    PathFacts,
};

#[test]
fn test_validate_baud_rate_valid() {
    assert!(validate_baud_rate(115200).is_ok());
    assert!(validate_baud_rate(9600).is_ok());
}

#[test]
fn test_validate_baud_rate_invalid() {
    assert!(validate_baud_rate(123456).is_err());
    assert!(validate_baud_rate(0).is_err());
}

#[test]
fn test_validate_file_path_current_dir() {
    // a relative path that does not exist yet, in a writable directory
    let facts = PathFacts {
        is_absolute: false,
        exists: false,
        has_parent: true,
        parent_exists: true,
        parent_writable: true,
    };
    assert!(validate_file_path("test.log", facts).is_ok());
}

#[test]
fn invalid_baud_rate_error_carries_rate() {
    assert_eq!(validate_baud_rate(123456), Err(SpewcapError::InvalidBaudRate(123456)));
}

#[test]
fn port_name_found_in_list() {
    let ports = vec!["COM3".to_string(), "/dev/ttyUSB0".to_string()];
    assert_eq!(validate_port_name("/dev/ttyUSB0", &ports), Ok("/dev/ttyUSB0".to_string()));
}

#[test]
fn port_name_missing_from_list() {
    let ports = vec!["COM3".to_string()];
    assert_eq!(
        validate_port_name("COM7", &ports),
        Err(SpewcapError::InvalidPort("COM7".to_string()))
    );
}

#[test]
fn file_path_unwritable_parent_rejected() {
    let facts = PathFacts {
        is_absolute: false,
        exists: false,
        has_parent: true,
        parent_exists: true,
        parent_writable: false,
    };
    assert_eq!(
        validate_file_path("out.log", facts),
        Err(SpewcapError::InvalidFilePath("out.log".to_string()))
    );
}

#[test]
fn absolute_path_needs_existing_parent() {
    let missing_parent = PathFacts {
        is_absolute: true,
        exists: false,
        has_parent: true,
        parent_exists: false,
        parent_writable: true,
    };
    assert!(validate_file_path("/nowhere/out.log", missing_parent).is_err());
    let good = PathFacts {
        is_absolute: true,
        exists: false,
        has_parent: true,
        parent_exists: true,
        parent_writable: true,
    };
    assert!(validate_file_path("/tmp/out.log", good).is_ok());
}

#[test]
fn directory_path_accepted_and_rejected() {
    let good = DirFacts { exists: true, is_dir: true, writable: true };
    assert_eq!(validate_directory_path("logs", good), Ok("logs".to_string()));
    let not_dir = DirFacts { exists: true, is_dir: false, writable: true };
    assert_eq!(
        validate_directory_path("afile", not_dir),
        Err(SpewcapError::InvalidFilePath("afile".to_string()))
    );
    let missing = DirFacts { exists: false, is_dir: false, writable: false };
    assert!(validate_directory_path("gone", missing).is_err());
}
