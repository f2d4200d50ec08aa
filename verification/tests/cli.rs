use apple_music_tui::cli::{AuthCommand, BackendChoice, CliAction, CliError};

fn args(items: &[&str]) -> Vec<String> {
    items.iter().map(|item| item.to_string()).collect()
}

#[test]
fn parses_mock_backend() {
    assert_eq!(
        CliAction::parse_from(args(&["--backend", "mock"])).expect("valid arguments"),
        CliAction::Run(BackendChoice::Mock)
    );
}

#[test]
fn parses_macos_and_auto_backends() {
    assert_eq!(
        CliAction::parse_from(args(&["--backend=macos"])).expect("valid arguments"),
        CliAction::Run(BackendChoice::Macos)
    );
    assert_eq!(
        CliAction::parse_from(Vec::new()).expect("valid arguments"),
        CliAction::Run(BackendChoice::Auto)
    );
}

#[test]
fn rejects_unknown_arguments() {
    assert!(CliAction::parse_from(args(&["--wat"])).is_err());
}

#[test]
fn routes_auth_doctor_and_config_path_commands() {
    assert_eq!(
        CliAction::parse_from(args(&["auth"])).expect("auth"),
        CliAction::Auth(AuthCommand::Login)
    );
    assert_eq!(
        CliAction::parse_from(args(&["auth", "status"])).expect("auth status"),
        CliAction::Auth(AuthCommand::Status)
    );
    assert_eq!(
        CliAction::parse_from(args(&["auth", "logout"])).expect("auth logout"),
        CliAction::Auth(AuthCommand::Logout)
    );
    assert_eq!(CliAction::parse_from(args(&["doctor"])).expect("doctor"), CliAction::Doctor);
    assert_eq!(
        CliAction::parse_from(args(&["config-path"])).expect("config path"),
        CliAction::ConfigPath
    );
}

#[test]
fn rejects_unknown_auth_subcommands() {
    assert!(CliAction::parse_from(args(&["auth", "wat"])).is_err());
}

#[test]
fn error_messages_name_the_offending_argument() {
    assert_eq!(
        CliAction::parse_from(args(&["--wat"])),
        Err(CliError::InvalidArguments("unknown argument '--wat'".to_owned()))
    );
    assert_eq!(
        CliAction::parse_from(args(&["auth", "wat"])),
        Err(CliError::InvalidArguments(
            "unknown auth command 'wat'; expected status or logout".to_owned()
        ))
    );
    assert_eq!(
        CliAction::parse_from(args(&["auth", "status", "extra"])),
        Err(CliError::InvalidArguments("unexpected argument 'extra' after auth command".to_owned()))
    );
    assert_eq!(
        CliAction::parse_from(args(&["doctor", "now"])),
        Err(CliError::InvalidArguments("unexpected argument 'now'".to_owned()))
    );
    assert_eq!(
        CliAction::parse_from(args(&["--backend"])),
        Err(CliError::InvalidArguments("--backend requires a value".to_owned()))
    );
    assert_eq!(
        CliAction::parse_from(args(&["--backend", "spotify"])),
        Err(CliError::InvalidArguments(
            "unknown backend 'spotify'; expected auto, mock, macos, or apple".to_owned()
        ))
    );
}

#[test]
fn help_and_version_win_over_later_arguments() {
    assert_eq!(CliAction::parse_from(args(&["-h", "--wat"])), Ok(CliAction::Help));
    assert_eq!(CliAction::parse_from(args(&["--backend", "mock", "version"])), Ok(CliAction::Version));
    assert_eq!(CliAction::parse_from(args(&["--backend=--backend=apple"])), Ok(CliAction::Run(BackendChoice::Apple)));
    assert_eq!(
        CliAction::parse_from(args(&["--backend", "mock", "--backend=macos"])),
        Ok(CliAction::Run(BackendChoice::Macos))
    );
}

#[test]
fn backend_labels_round_trip_through_parsing() {
    for choice in [BackendChoice::Auto, BackendChoice::Mock, BackendChoice::Macos, BackendChoice::Apple] {
        assert_eq!(BackendChoice::parse(choice.label()), Ok(choice));
    }
    assert!(CliAction::help_text().starts_with("apple-music-tui\n\nUSAGE:"));
}
