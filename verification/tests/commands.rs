use spewcap::commands::{parse_command, Command};

/// The whole key map, presses only.
#[test]
fn key_map() {
    assert_eq!(parse_command('q', false, true), Some(Command::Quit));
    assert_eq!(parse_command('c', true, true), Some(Command::Quit));
    assert_eq!(parse_command('c', false, true), Some(Command::ClearConsole));
    assert_eq!(parse_command('p', false, true), Some(Command::TogglePauseCapture));
    assert_eq!(parse_command('n', false, true), Some(Command::StartNewLog));
    assert_eq!(parse_command('s', false, true), Some(Command::SaveActiveLog));
    assert_eq!(parse_command('l', false, true), Some(Command::TogglePauseLogging));
    assert_eq!(parse_command('h', false, true), Some(Command::Help));
    assert_eq!(parse_command('z', false, true), None);
}

/// Key releases are never dispatched.
#[test]
fn releases_ignored() {
    assert_eq!(parse_command('q', false, false), None);
    assert_eq!(parse_command('c', true, false), None);
}
