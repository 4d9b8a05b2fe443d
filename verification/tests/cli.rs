use unraid_mcp::cli::{flag_i64, CliCommand, CliError, SetupCommand};
use unraid_mcp::service::ServiceCall;

fn argv(words: &[&str]) -> Vec<String> {
    words.iter().map(|w| w.to_string()).collect()
}

fn parse(words: &[&str]) -> Result<(CliCommand, bool), CliError> {
    CliCommand::parse(&argv(words))
}

#[test]
fn parses_single_word_commands() {
    assert_eq!(parse(&["array"]), Ok((CliCommand::Array, false)));
    assert_eq!(parse(&["disks"]), Ok((CliCommand::Disks, false)));
    assert_eq!(parse(&["cloud"]), Ok((CliCommand::Cloud, false)));
    assert_eq!(parse(&["doctor"]), Ok((CliCommand::Doctor, false)));
    assert_eq!(parse(&["parity-check-cancel"]), Ok((CliCommand::ParityCheckCancel, false)));
}

#[test]
fn json_flag_is_removed_anywhere() {
    assert_eq!(parse(&["--json", "array"]), Ok((CliCommand::Array, true)));
    assert_eq!(parse(&["array", "--json"]), Ok((CliCommand::Array, true)));
    assert_eq!(parse(&["vm-start", "--json", "v1"]), Ok((CliCommand::VmStart("v1".into()), true)));
}

#[test]
fn aliases_name_the_same_command() {
    assert_eq!(parse(&["log-files"]), parse(&["log", "files"]));
    assert_eq!(parse(&["ups-config"]), parse(&["ups", "config"]));
    assert_eq!(parse(&["parity-history"]), parse(&["parity", "history"]));
    assert_eq!(parse(&["remote-access"]), parse(&["remote", "access"]));
    assert_eq!(parse(&["system-time"]), parse(&["system", "time"]));
    assert_eq!(parse(&["sso"]), Ok((CliCommand::IsSsoEnabled, false)));
    assert_eq!(parse(&["nics"]), Ok((CliCommand::NetworkInterfaces, false)));
    assert_eq!(parse(&["plugin-op", "p1"]), Ok((CliCommand::PluginInstallOperation("p1".into()), false)));
    assert_eq!(parse(&["ups-device", "u1"]), Ok((CliCommand::UpsDeviceById("u1".into()), false)));
}

#[test]
fn docker_logs_reads_tail() {
    assert_eq!(
        parse(&["docker", "logs", "abc"]),
        Ok((CliCommand::DockerLogs { id: "abc".into(), tail: None }, false))
    );
    assert_eq!(
        parse(&["docker", "logs", "abc", "--tail", "25"]),
        Ok((CliCommand::DockerLogs { id: "abc".into(), tail: Some(25) }, false))
    );
    assert_eq!(
        parse(&["docker", "logs", "abc", "--tail", "-7"]),
        Ok((CliCommand::DockerLogs { id: "abc".into(), tail: Some(-7) }, false))
    );
}

#[test]
fn log_reads_lines_and_start_line() {
    assert_eq!(
        parse(&["log", "/var/log/syslog", "--lines", "10", "--start-line", "+3"]),
        Ok((CliCommand::LogFile { path: "/var/log/syslog".into(), lines: Some(10), start_line: Some(3) }, false))
    );
    assert_eq!(
        parse(&["log-file", "x"]),
        Ok((CliCommand::LogFile { path: "x".into(), lines: None, start_line: None }, false))
    );
    assert_eq!(
        parse(&["log", "files", "extra"]),
        Ok((CliCommand::LogFile { path: "files".into(), lines: None, start_line: None }, false))
    );
}

#[test]
fn flag_errors_are_reported() {
    let e = parse(&["docker", "logs", "abc", "--tail"]).unwrap_err();
    assert_eq!(e, CliError::MissingFlagValue("--tail".into()));
    assert_eq!(e.message(), "--tail requires a value");
    let e = parse(&["log", "p", "--lines", "ten"]).unwrap_err();
    assert_eq!(e, CliError::InvalidInteger { flag: "--lines".into(), value: "ten".into() });
    assert_eq!(e.message(), "--lines: expected integer, got \"ten\"");
    let e = parse(&["log", "p", "--start-line", "99999999999999999999"]).unwrap_err();
    assert_eq!(e.message(), "--start-line: expected integer, got \"99999999999999999999\"");
}

#[test]
fn list_and_multi_argument_commands() {
    assert_eq!(
        parse(&["get-permissions-for-roles", "ADMIN", "VIEWER"]),
        Ok((CliCommand::GetPermissionsForRoles(vec!["ADMIN".into(), "VIEWER".into()]), false))
    );
    assert_eq!(
        parse(&["docker-update-containers", "a", "b"]),
        Ok((CliCommand::DockerUpdateContainers(vec!["a".into(), "b".into()]), false))
    );
    assert_eq!(
        parse(&["create-notification", "t", "s", "d", "ALERT"]),
        Ok((
            CliCommand::CreateNotification {
                title: "t".into(),
                subject: "s".into(),
                description: "d".into(),
                importance: "ALERT".into(),
                link: None
            },
            false
        ))
    );
    assert_eq!(
        parse(&["create-notification", "t", "s", "d", "INFO", "http://x", "ignored"]),
        Ok((
            CliCommand::CreateNotification {
                title: "t".into(),
                subject: "s".into(),
                description: "d".into(),
                importance: "INFO".into(),
                link: Some("http://x".into())
            },
            false
        ))
    );
}

#[test]
fn parity_check_start_correct_flag() {
    assert_eq!(parse(&["parity-check-start"]), Ok((CliCommand::ParityCheckStart(false), false)));
    assert_eq!(parse(&["parity-check-start", "correct"]), Ok((CliCommand::ParityCheckStart(true), false)));
    assert_eq!(parse(&["parity-check-start", "true"]), Ok((CliCommand::ParityCheckStart(true), false)));
    assert_eq!(parse(&["parity-check-start", "no"]), Ok((CliCommand::ParityCheckStart(false), false)));
}

#[test]
fn setup_subcommands() {
    assert_eq!(parse(&["setup", "check"]), Ok((CliCommand::Setup(SetupCommand::Check), false)));
    assert_eq!(parse(&["setup", "repair"]), Ok((CliCommand::Setup(SetupCommand::Repair), false)));
    assert_eq!(parse(&["setup", "install"]), Ok((CliCommand::Setup(SetupCommand::Install), false)));
    assert_eq!(
        parse(&["setup", "plugin-hook"]),
        Ok((CliCommand::Setup(SetupCommand::PluginHook { no_repair: false }), false))
    );
    assert_eq!(
        parse(&["setup", "plugin-hook", "x", "--no-repair"]),
        Ok((CliCommand::Setup(SetupCommand::PluginHook { no_repair: true }), false))
    );
}

#[test]
fn unknown_commands_are_rejected_with_help_hint() {
    let e = parse(&["frobnicate", "now"]).unwrap_err();
    assert_eq!(e, CliError::UnknownCommand("frobnicate now".into()));
    assert_eq!(e.message(), "unknown command: frobnicate now\n\nRun `unraid --help` for usage.");
    assert_eq!(parse(&[]).unwrap_err().message(), "unknown command: \n\nRun `unraid --help` for usage.");
    assert!(parse(&["array", "extra"]).is_err());
    assert!(parse(&["get-permissions-for-roles"]).is_err());
    assert!(parse(&["docker-update-containers"]).is_err());
    assert!(parse(&["create-notification", "t", "s", "d"]).is_err());
    assert!(parse(&["vm-start"]).is_err());
}

#[test]
fn commands_map_to_their_service_calls() {
    let (c, _) = parse(&["docker-remove-container", "c1"]).unwrap();
    let call = c.into_service_call();
    assert_eq!(call, ServiceCall::DockerRemoveContainer { id: "c1".into(), with_image: None });
    assert_eq!(call.name(), "docker_remove_container");
    let (c, _) = parse(&["array-add-disk-to-array", "d1"]).unwrap();
    assert_eq!(c.into_service_call(), ServiceCall::ArrayAddDiskToArray { id: "d1".into(), slot: None });
    let (c, _) = parse(&["log-files"]).unwrap();
    assert_eq!(c.into_service_call().name(), "log_files");
    let (c, _) = parse(&["ups-device", "u"]).unwrap();
    assert_eq!(c.into_service_call().name(), "ups_device_by_id");
}

#[test]
fn json_flag_position_does_not_change_the_command() {
    let base = parse(&["log", "/var/log/syslog", "--lines", "5"]).unwrap().0;
    for words in [
        ["--json", "log", "/var/log/syslog", "--lines", "5"],
        ["log", "--json", "/var/log/syslog", "--lines", "5"],
        ["log", "/var/log/syslog", "--json", "--lines", "5"],
        ["log", "/var/log/syslog", "--lines", "--json", "5"],
        ["log", "/var/log/syslog", "--lines", "5", "--json"],
    ] {
        assert_eq!(parse(&words).unwrap(), (base.clone(), true), "{words:?}");
    }
}

#[test]
fn flag_i64_reads_the_word_after_the_first_occurrence() {
    let words = argv(&["docker", "logs", "x", "--tail", "12", "--tail", "7"]);
    assert_eq!(flag_i64(&words, "--tail").unwrap(), Some(12));
    assert_eq!(flag_i64(&words, "--lines").unwrap(), None);
    let words = argv(&["docker", "logs", "x", "--tail"]);
    assert_eq!(flag_i64(&words, "--tail"), Err(CliError::MissingFlagValue("--tail".into())));
    let words = argv(&["docker", "logs", "x", "--tail", "ten"]);
    assert_eq!(
        flag_i64(&words, "--tail"),
        Err(CliError::InvalidInteger { flag: "--tail".into(), value: "ten".into() })
    );
    assert_eq!(
        flag_i64(&words, "--tail").unwrap_err().message(),
        "--tail: expected integer, got \"ten\""
    );
}

#[test]
fn malformed_integer_is_quoted_and_escaped_in_the_message() {
    let e = parse(&["log", "/x", "--lines", "a\"b"]).unwrap_err();
    assert_eq!(e.message(), "--lines: expected integer, got \"a\\\"b\"");
}
