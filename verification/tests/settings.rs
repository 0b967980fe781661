use spewcap::error::SpewcapError;
use spewcap::settings::{get_config, get_settings, port_description, Args, Config};
use spewcap::validation::DirFacts;

fn plain_args() -> Args {
    Args {
        port: None,
        baud_rate: None,
        timestamps: false,
        log_on_start: false,
        log_folder: None,
        list: false,
    }
}

fn good_dir() -> DirFacts {
    DirFacts { exists: true, is_dir: true, writable: true }
}

#[test]
fn args_override_loaded_config() {
    let loaded = Config {
        port: Some("COM3".to_string()),
        baud_rate: Some(9600),
        timestamps: Some(false),
        log_folder: None,
        log_on_start: None,
        disable_welcome: Some(true),
    };
    let ports = vec!["COM3".to_string(), "COM7".to_string()];
    let mut args = plain_args();
    args.port = Some("COM7".to_string());
    args.baud_rate = Some(115200);
    args.timestamps = true;
    let config = get_config(args, Some(loaded), &ports, good_dir()).unwrap();
    assert_eq!(config.port, Some("COM7".to_string()));
    assert_eq!(config.baud_rate, Some(115200));
    assert_eq!(config.timestamps, Some(true));
    assert_eq!(config.disable_welcome, Some(true));
}

#[test]
fn missing_config_file_starts_empty() {
    let ports = vec!["COM3".to_string()];
    let config = get_config(plain_args(), None, &ports, good_dir()).unwrap();
    assert_eq!(config.port, None);
    assert_eq!(config.baud_rate, None);
    assert_eq!(config.timestamps, Some(false));
    assert_eq!(config.disable_welcome, None);
}

#[test]
fn bad_arg_port_is_rejected() {
    let ports = vec!["COM3".to_string()];
    let mut args = plain_args();
    args.port = Some("COM9".to_string());
    assert_eq!(
        get_config(args, None, &ports, good_dir()),
        Err(SpewcapError::InvalidPort("COM9".to_string()))
    );
}

#[test]
fn bad_arg_baud_rate_is_rejected() {
    let ports = vec!["COM3".to_string()];
    let mut args = plain_args();
    args.baud_rate = Some(1234);
    assert_eq!(get_config(args, None, &ports, good_dir()), Err(SpewcapError::InvalidBaudRate(1234)));
}

#[test]
fn bad_arg_log_folder_is_rejected() {
    let ports = vec!["COM3".to_string()];
    let mut args = plain_args();
    args.log_folder = Some("nope".to_string());
    let missing = DirFacts { exists: false, is_dir: false, writable: false };
    assert_eq!(
        get_config(args, None, &ports, missing),
        Err(SpewcapError::InvalidFilePath("nope".to_string()))
    );
}

#[test]
fn select_missing_fills_gaps() {
    let mut config = Config::default();
    config
        .select_missing(Some("COM3".to_string()), Some(115200))
        .unwrap();
    assert_eq!(config.port, Some("COM3".to_string()));
    assert_eq!(config.baud_rate, Some(115200));
}

#[test]
fn select_missing_keeps_chosen_values() {
    let mut config = Config::default();
    config.port = Some("COM1".to_string());
    config.baud_rate = Some(9600);
    config.select_missing(Some("COM3".to_string()), Some(115200)).unwrap();
    assert_eq!(config.port, Some("COM1".to_string()));
    assert_eq!(config.baud_rate, Some(9600));
}

#[test]
fn abandoned_selection_is_a_dialog_error() {
    let mut config = Config::default();
    let r = config.select_missing(None, Some(115200));
    assert!(matches!(r, Err(SpewcapError::Dialog(_))));
}

#[test]
fn settings_resolve_from_complete_config() {
    let config = Config {
        port: Some("COM3".to_string()),
        baud_rate: Some(115200),
        timestamps: None,
        log_folder: Some("logs".to_string()),
        log_on_start: None,
        disable_welcome: None,
    };
    let ports = vec!["COM3".to_string()];
    let settings = get_settings(&config, &ports, good_dir()).unwrap();
    assert_eq!(settings.port, "COM3");
    assert_eq!(settings.baud_rate, 115200);
    assert!(!settings.timestamps);
    assert_eq!(settings.log_folder, Some("logs".to_string()));
}

#[test]
fn settings_need_a_port() {
    let config = Config::default();
    let ports: Vec<String> = Vec::new();
    let r = get_settings(&config, &ports, good_dir());
    assert!(matches!(r, Err(SpewcapError::Settings(_))));
}

#[test]
fn settings_need_a_baud_rate() {
    let mut config = Config::default();
    config.port = Some("COM3".to_string());
    let ports = vec!["COM3".to_string()];
    let r = get_settings(&config, &ports, good_dir());
    assert!(matches!(r, Err(SpewcapError::Settings(_))));
}

#[test]
fn port_descriptions_render() {
    assert_eq!(port_description("COM3", None, None), "  COM3");
    assert_eq!(
        port_description("COM3", Some("Acme"), Some("Widget")),
        "  COM3 - Acme Widget"
    );
    assert_eq!(
        port_description("COM3", Some("Acme"), None),
        "  COM3 - Acme Unknown"
    );
    // a missing pair is treated as unknown even when spelled out
    assert_eq!(port_description("COM3", Some("Unknown"), Some("Unknown")), "  COM3");
}
