use std::path::PathBuf;

use base_search::web_args::{parse_cli_web_args, parse_web_config, WebConfig, DEFAULT_WEB_PORT};

fn args(values: &[&str]) -> Vec<String> {
    values.iter().map(|value| (*value).to_string()).collect()
}

fn default_db() -> String {
    "default.db".to_string()
}

#[test]
fn parse_web_config_accepts_explicit_options() {
    let config = parse_web_config(
        args(&[
            "custom.db",
            "--host",
            "localhost",
            "--port",
            "9000",
            "--token",
            "secret",
            "--no-open",
        ]),
        default_db(),
    )
    .unwrap();

    assert_eq!(PathBuf::from(&config.db_path), PathBuf::from("custom.db"));
    assert_eq!(config.host, "localhost");
    assert_eq!(config.port, 9000);
    assert_eq!(config.token.as_deref(), Some("secret"));
    assert!(!config.open_browser);
}

#[test]
fn parse_web_config_rejects_missing_option_values() {
    for flag in ["--host", "--port", "--db", "--token"] {
        assert!(parse_web_config(args(&[flag]), default_db()).is_err());
    }
}

#[test]
fn parse_web_config_rejects_invalid_or_unknown_options() {
    assert!(parse_web_config(args(&["--port", "nope"]), default_db()).is_err());
    assert!(parse_web_config(args(&["--unknown"]), default_db()).is_err());
}

#[test]
fn parse_web_config_rejects_multiple_database_paths() {
    assert!(parse_web_config(args(&["one.db", "two.db"]), default_db()).is_err());
}

#[test]
fn web_config_defaults_and_messages() {
    let config = parse_web_config(Vec::new(), default_db()).unwrap();
    assert_eq!(config, WebConfig::new(default_db()));
    assert_eq!(config.host, "127.0.0.1");
    assert_eq!(config.port, DEFAULT_WEB_PORT);
    assert_eq!(config.token, None);
    assert!(config.open_browser);
    assert_eq!(
        parse_web_config(args(&["--port", "65536"]), default_db()),
        Err("--port must be a number from 0 to 65535".to_string())
    );
    assert_eq!(
        parse_web_config(args(&["--host", "--no-open"]), default_db()),
        Err("--host requires a value".to_string())
    );
    assert_eq!(
        parse_web_config(args(&["--db", "a.db", "b.db"]), default_db()),
        Err("Only one database path can be supplied".to_string())
    );
    assert_eq!(
        parse_web_config(args(&["--verbose"]), default_db()),
        Err("Unknown web option: --verbose".to_string())
    );
    assert_eq!(parse_web_config(args(&["--db", "x.db"]), default_db()).unwrap().db_path, "x.db");
}

#[test]
fn cli_web_command_options() {
    let config = parse_cli_web_args(&args(&["a.db", "b.db", "--port", "8080", "--no-open"]), default_db())
        .unwrap();
    assert_eq!(config.db_path, "b.db");
    assert_eq!(config.port, 8080);
    assert!(!config.open_browser);
    let token = parse_cli_web_args(&args(&["--token", "--x"]), default_db()).unwrap();
    assert_eq!(token.token.as_deref(), Some("--x"));
    assert_eq!(
        parse_cli_web_args(&args(&["--host"]), default_db()),
        Err("--host requires a value".to_string())
    );
    assert_eq!(
        parse_cli_web_args(&args(&["--db", "x.db"]), default_db()),
        Err("Unknown web option: --db".to_string())
    );
}
