use hopper::api::Error;
use hopper::config::ConfigError;
use hopper::error::{ArgsError, ExitKind, HopError, USAGE};

#[test]
fn config_errors_map_to_messages_and_exits() {
    assert_eq!(
        ConfigError::OpenError("denied".to_string()).into_exit(),
        ("Unable to open configuration file.".to_string(), ExitKind::Unavailable)
    );
    assert_eq!(
        ConfigError::FormatError("bad byte".to_string()).into_exit(),
        ("Configuration file is not valid UTF-8.".to_string(), ExitKind::DataErr)
    );
    assert_eq!(
        ConfigError::ParseError("line 1".to_string()).into_exit(),
        ("Unable to parse configuration file.".to_string(), ExitKind::DataErr)
    );
    assert_eq!(
        ConfigError::CreateError("x".to_string()).into_exit(),
        ("Unable to create configuration file.".to_string(), ExitKind::Unavailable)
    );
    assert_eq!(
        ConfigError::ReadError("x".to_string()).into_exit(),
        ("Error while reading configuration file.".to_string(), ExitKind::DataErr)
    );
}

#[test]
fn usage_errors_carry_the_synopsis() {
    let (m, k) = HopError::usage().into_exit();
    assert_eq!(m, format!("Usage: {}", USAGE));
    assert!(m.starts_with("Usage: [-v] add | get"));
    assert_eq!(k, ExitKind::Usage);
    let (m, k) = ArgsError::usage().into_exit();
    assert_eq!(m, USAGE);
    assert_eq!(k, ExitKind::Usage);
}

#[test]
fn other_errors() {
    let (m, k) = HopError::config_unavailable("no home").into_exit();
    assert_eq!(m, "no home: Unable to open configuration file");
    assert_eq!(k, ExitKind::Unavailable);
    let (m, k) = HopError::unimplemented("list").into_exit();
    assert_eq!(m, "list: Unimplemented subcommand.");
    assert_eq!(k, ExitKind::Software);
}

#[test]
fn api_error_message() {
    let e = Error { error: "not_found".to_string(), description: "the project was not found".to_string() };
    assert_eq!(e.message(), "not_found: the project was not found");
}

#[test]
fn unreadable_arguments_exit_as_os_error() {
    let (m, k) = HopError::unreadable_arguments().into_exit();
    assert_eq!(m, "Unable to ascertain arguments.");
    assert_eq!(k, ExitKind::OsErr);
}
