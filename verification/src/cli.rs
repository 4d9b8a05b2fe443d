//! Parsing of the `runraid` command line into a [`CliCommand`].

use vstd::prelude::*;
use crate::text::{debug_quote, debug_quoted, join, join_strings, parse_i64, spec_parse_i64, str_eq, string_views};

verus! {

/// The `setup` sub-commands.
#[derive(Clone, Copy, Debug, PartialEq, Eq)]
pub enum SetupCommand {
    Check,
    Repair,
    Install,
    PluginHook { no_repair: bool },
}

/// Why a command line was rejected.
#[derive(Clone, Debug, PartialEq, Eq)]
pub enum CliError {
    /// No command matches; carries the words (without `--json`) joined by spaces.
    UnknownCommand(String),
    /// `flag` appeared as the last word, with no value after it.
    MissingFlagValue(String),
    /// The value after `flag` is not a decimal `i64`.
    InvalidInteger { flag: String, value: String },
}

/// The content of a [`CliError`], over character sequences.
pub enum CliErrorView {
    UnknownCommand(Seq<char>),
    MissingFlagValue(Seq<char>),
    InvalidInteger(Seq<char>, Seq<char>),
}

impl View for CliError {
    type V = CliErrorView;

    open spec fn view(&self) -> CliErrorView {
        match self {
            CliError::UnknownCommand(line) => CliErrorView::UnknownCommand(line@),
            CliError::MissingFlagValue(flag) => CliErrorView::MissingFlagValue(flag@),
            CliError::InvalidInteger { flag, value } => CliErrorView::InvalidInteger(flag@, value@),
        }
    }
}

/// The message shown to the user for an error.
pub open spec fn spec_cli_error_message(e: CliErrorView) -> Seq<char> {
    match e {
        CliErrorView::UnknownCommand(line) => "unknown command: "@ + line
            + "\n\nRun `unraid --help` for usage."@,
        CliErrorView::MissingFlagValue(flag) => flag + " requires a value"@,
        CliErrorView::InvalidInteger(flag, value) => flag + ": expected integer, got "@
            + debug_quoted(value),
    }
}

impl CliError {
    /// The message shown to the user.
    pub fn message(&self) -> (r: String)
        ensures
            r@ == spec_cli_error_message(self@),
    {
        match self {
            CliError::UnknownCommand(line) => {
                let mut r = String::from_str("unknown command: ");
                r.append(line.as_str());
                r.append("\n\nRun `unraid --help` for usage.");
                r
            },
            CliError::MissingFlagValue(flag) => {
                let mut r = flag.clone();
                r.append(" requires a value");
                r
            },
            CliError::InvalidInteger { flag, value } => {
                let mut r = flag.clone();
                r.append(": expected integer, got ");
                let q = debug_quote(value.as_str());
                r.append(q.as_str());
                r
            },
        }
    }
}

/// `args` without the `--json` words, in order.
pub open spec fn spec_strip_json(args: Seq<String>) -> Seq<String>
    decreases args.len(),
{
    if args.len() == 0 {
        Seq::empty()
    } else {
        let r = spec_strip_json(args.drop_last());
        if args.last()@ == "--json"@ {
            r
        } else {
            r.push(args.last())
        }
    }
}

/// Whether `--json` is one of `args`.
pub open spec fn spec_has_json(args: Seq<String>) -> bool {
    exists|i: int| 0 <= i < args.len() && (#[trigger] args[i])@ == "--json"@
}

/// The index of the first word equal to `w`.
pub open spec fn spec_first_index(s: Seq<String>, w: Seq<char>) -> Option<int>
    decreases s.len(),
{
    if s.len() == 0 {
        None
    } else if s[0]@ == w {
        Some(0)
    } else {
        match spec_first_index(s.drop_first(), w) {
            Some(i) => Some(i + 1),
            None => None,
        }
    }
}

/// The integer value of `flag` in `words`: absent, the word after its first
/// occurrence parsed as `i64`, or an error when that word is missing or malformed.
pub open spec fn spec_flag_i64(words: Seq<String>, flag: Seq<char>) -> Result<Option<i64>, CliErrorView> {
    match spec_first_index(words, flag) {
        None => Ok(None),
        Some(p) => if p + 1 < words.len() {
            match spec_parse_i64(words[p + 1]@) {
                Some(v) => Ok(Some(v)),
                None => Err(CliErrorView::InvalidInteger(flag, words[p + 1]@)),
            }
        } else {
            Err(CliErrorView::MissingFlagValue(flag))
        },
    }
}

/// What a command line (with `--json` removed) denotes.
pub enum ParseOutcome {
    /// A command whose payload holds no list.
    Command(CliCommand),
    /// `get-permissions-for-roles` with these roles.
    Roles(Seq<String>),
    /// `docker-update-containers` with these container ids.
    Containers(Seq<String>),
    /// The command line is rejected.
    Failure(CliErrorView),
}

/// The meaning of the words of a command line (after removing `--json`).
pub open spec fn spec_command(rest: Seq<String>) -> ParseOutcome {
    if rest.len() == 1 && spec_single_word_command(rest[0]@) is Some {
        ParseOutcome::Command(spec_single_word_command(rest[0]@)->0)
    } else if rest.len() == 2 && spec_two_word_command(rest[0]@, rest[1]@) is Some {
        ParseOutcome::Command(spec_two_word_command(rest[0]@, rest[1]@)->0)
    } else if rest.len() == 2 && spec_id_command(rest[0]@, rest[1]) is Some {
        ParseOutcome::Command(spec_id_command(rest[0]@, rest[1])->0)
    } else if rest.len() >= 3 && rest[0]@ == "docker"@ && rest[1]@ == "logs"@ {
        match spec_flag_i64(rest, "--tail"@) {
            Ok(tail) => ParseOutcome::Command(CliCommand::DockerLogs { id: rest[2], tail }),
            Err(e) => ParseOutcome::Failure(e),
        }
    } else if rest.len() >= 2 && (rest[0]@ == "log"@ || rest[0]@ == "log-file"@) {
        match spec_flag_i64(rest, "--lines"@) {
            Err(e) => ParseOutcome::Failure(e),
            Ok(lines) => match spec_flag_i64(rest, "--start-line"@) {
                Err(e) => ParseOutcome::Failure(e),
                Ok(start_line) => ParseOutcome::Command(
                    CliCommand::LogFile { path: rest[1], lines, start_line },
                ),
            },
        }
    } else if rest.len() >= 2 && rest[0]@ == "get-permissions-for-roles"@ {
        ParseOutcome::Roles(rest.drop_first())
    } else if rest.len() >= 5 && rest[0]@ == "create-notification"@ {
        ParseOutcome::Command(
            CliCommand::CreateNotification {
                title: rest[1],
                subject: rest[2],
                description: rest[3],
                importance: rest[4],
                link: if rest.len() > 5 { Some(rest[5]) } else { None },
            },
        )
    } else if rest.len() >= 1 && rest[0]@ == "parity-check-start"@ {
        ParseOutcome::Command(
            CliCommand::ParityCheckStart(
                rest.len() >= 2 && (rest[1]@ == "correct"@ || rest[1]@ == "true"@),
            ),
        )
    } else if rest.len() >= 2 && rest[0]@ == "docker-update-containers"@ {
        ParseOutcome::Containers(rest.drop_first())
    } else if rest.len() >= 2 && rest[0]@ == "setup"@ && rest[1]@ == "plugin-hook"@ {
        ParseOutcome::Command(
            CliCommand::Setup(
                SetupCommand::PluginHook {
                    no_repair: exists|k: int| 2 <= k < rest.len() && (#[trigger] rest[k])@ == "--no-repair"@,
                },
            ),
        )
    } else {
        ParseOutcome::Failure(CliErrorView::UnknownCommand(join(string_views(rest), " "@)))
    }
}

/// `r` is what parsing the command line `args` yields: the command together
/// with whether `--json` was given, or the error.
pub open spec fn spec_parse_result(args: Seq<String>, r: Result<(CliCommand, bool), CliError>) -> bool {
    let json = spec_has_json(args);
    match spec_command(spec_strip_json(args)) {
        ParseOutcome::Command(c) => r == Ok::<(CliCommand, bool), CliError>((c, json)),
        ParseOutcome::Roles(roles) => match r {
            Ok((CliCommand::GetPermissionsForRoles(v), j)) => v@ == roles && j == json,
            _ => false,
        },
        ParseOutcome::Containers(ids) => match r {
            Ok((CliCommand::DockerUpdateContainers(v), j)) => v@ == ids && j == json,
            _ => false,
        },
        ParseOutcome::Failure(e) => match r {
            Err(x) => x@ == e,
            _ => false,
        },
    }
}

/// A parsed `runraid` command line.
#[derive(Clone, Debug, PartialEq, Eq)]
pub enum CliCommand {
    Array,
    Disks,
    Docker,
    /// `docker logs <id> [--tail N]`
    DockerLogs { id: String, tail: Option<i64> },
    Vms,
    Server,
    Info,
    Shares,
    Notifications,
    LogFiles,
    /// `log <path> [--lines N] [--start-line N]`
    LogFile { path: String, lines: Option<i64>, start_line: Option<i64> },
    Services,
    Network,
    Ups,
    UpsConfig,
    Metrics,
    Plugins,
    ParityHistory,
    Vars,
    Registration,
    Flash,
    Rclone,
    RemoteAccess,
    Connect,
    Online,
    SystemTime,
    InstalledUnraidPlugins,
    IsSsoEnabled,
    PublicOidcProviders,
    OidcProviders,
    OidcConfiguration,
    ApiKeys,
    ApiKeyPossibleRoles,
    ApiKeyPossiblePermissions,
    GetAvailableAuthActions,
    GetApiKeyCreationFormSchema,
    Config,
    Settings,
    Display,
    Customization,
    InternalBootContext,
    Me,
    Owner,
    Servers,
    IsFreshInstall,
    PublicTheme,
    NetworkInterfaces,
    TimeZoneOptions,
    AssignableDisks,
    PluginInstallOperations,
    Cloud,
    ApiKey(String),
    Disk(String),
    OidcProvider(String),
    UpsDeviceById(String),
    PluginInstallOperation(String),
    ValidateOidcSession(String),
    GetPermissionsForRoles(Vec<String>),
    RecalculateOverview,
    DeleteArchivedNotifications,
    ArchiveNotification(String),
    CreateNotification {
        title: String,
        subject: String,
        description: String,
        importance: String,
        link: Option<String>,
    },
    VmStart(String),
    VmStop(String),
    VmPause(String),
    VmResume(String),
    VmForceStop(String),
    VmReboot(String),
    VmReset(String),
    DockerStart(String),
    DockerStop(String),
    DockerPause(String),
    DockerUnpause(String),
    DockerUpdateContainer(String),
    DockerRemoveContainer(String),
    DockerUpdateContainers(Vec<String>),
    DockerUpdateAllContainers,
    ArraySetState(String),
    ArrayAddDiskToArray(String),
    ArrayRemoveDiskFromArray(String),
    ArrayMountArrayDisk(String),
    ArrayUnmountArrayDisk(String),
    ArrayClearArrayDiskStatistics(String),
    /// `parity-check-start [correct|true]`
    ParityCheckStart(bool),
    ParityCheckPause,
    ParityCheckResume,
    ParityCheckCancel,
    Doctor,
    Setup(SetupCommand),
}

/// The command named by a single word, if any.
pub open spec fn spec_single_word_command(w: Seq<char>) -> Option<CliCommand> {
    if w == "array"@ {
        Some(CliCommand::Array)
    } else if w == "disks"@ {
        Some(CliCommand::Disks)
    } else if w == "docker"@ {
        Some(CliCommand::Docker)
    } else if w == "vms"@ {
        Some(CliCommand::Vms)
    } else if w == "server"@ {
        Some(CliCommand::Server)
    } else if w == "info"@ {
        Some(CliCommand::Info)
    } else if w == "shares"@ {
        Some(CliCommand::Shares)
    } else if w == "notifications"@ {
        Some(CliCommand::Notifications)
    } else if w == "log-files"@ {
        Some(CliCommand::LogFiles)
    } else if w == "services"@ {
        Some(CliCommand::Services)
    } else if w == "network"@ {
        Some(CliCommand::Network)
    } else if w == "ups"@ {
        Some(CliCommand::Ups)
    } else if w == "ups-config"@ {
        Some(CliCommand::UpsConfig)
    } else if w == "metrics"@ {
        Some(CliCommand::Metrics)
    } else if w == "plugins"@ {
        Some(CliCommand::Plugins)
    } else if w == "parity-history"@ {
        Some(CliCommand::ParityHistory)
    } else if w == "vars"@ {
        Some(CliCommand::Vars)
    } else if w == "registration"@ {
        Some(CliCommand::Registration)
    } else if w == "flash"@ {
        Some(CliCommand::Flash)
    } else if w == "rclone"@ {
        Some(CliCommand::Rclone)
    } else if w == "remote-access"@ {
        Some(CliCommand::RemoteAccess)
    } else if w == "connect"@ {
        Some(CliCommand::Connect)
    } else if w == "online"@ {
        Some(CliCommand::Online)
    } else if w == "system-time"@ {
        Some(CliCommand::SystemTime)
    } else if w == "installed-unraid-plugins"@ || w == "installed-plugins"@ {
        Some(CliCommand::InstalledUnraidPlugins)
    } else if w == "is-sso-enabled"@ || w == "sso"@ {
        Some(CliCommand::IsSsoEnabled)
    } else if w == "public-oidc-providers"@ {
        Some(CliCommand::PublicOidcProviders)
    } else if w == "oidc-providers"@ {
        Some(CliCommand::OidcProviders)
    } else if w == "oidc-configuration"@ || w == "oidc-config"@ {
        Some(CliCommand::OidcConfiguration)
    } else if w == "api-keys"@ {
        Some(CliCommand::ApiKeys)
    } else if w == "api-key-possible-roles"@ || w == "possible-roles"@ {
        Some(CliCommand::ApiKeyPossibleRoles)
    } else if w == "api-key-possible-permissions"@ || w == "possible-permissions"@ {
        Some(CliCommand::ApiKeyPossiblePermissions)
    } else if w == "get-available-auth-actions"@ || w == "auth-actions"@ {
        Some(CliCommand::GetAvailableAuthActions)
    } else if w == "get-api-key-creation-form-schema"@ || w == "api-key-form-schema"@ {
        Some(CliCommand::GetApiKeyCreationFormSchema)
    } else if w == "config"@ {
        Some(CliCommand::Config)
    } else if w == "settings"@ {
        Some(CliCommand::Settings)
    } else if w == "display"@ {
        Some(CliCommand::Display)
    } else if w == "customization"@ {
        Some(CliCommand::Customization)
    } else if w == "internal-boot-context"@ || w == "boot-context"@ {
        Some(CliCommand::InternalBootContext)
    } else if w == "me"@ {
        Some(CliCommand::Me)
    } else if w == "owner"@ {
        Some(CliCommand::Owner)
    } else if w == "servers"@ {
        Some(CliCommand::Servers)
    } else if w == "is-fresh-install"@ || w == "fresh-install"@ {
        Some(CliCommand::IsFreshInstall)
    } else if w == "public-theme"@ || w == "theme"@ {
        Some(CliCommand::PublicTheme)
    } else if w == "network-interfaces"@ || w == "nics"@ {
        Some(CliCommand::NetworkInterfaces)
    } else if w == "time-zone-options"@ || w == "timezones"@ {
        Some(CliCommand::TimeZoneOptions)
    } else if w == "assignable-disks"@ {
        Some(CliCommand::AssignableDisks)
    } else if w == "plugin-install-operations"@ || w == "plugin-ops"@ {
        Some(CliCommand::PluginInstallOperations)
    } else if w == "cloud"@ {
        Some(CliCommand::Cloud)
    } else if w == "recalculate-overview"@ {
        Some(CliCommand::RecalculateOverview)
    } else if w == "delete-archived-notifications"@ {
        Some(CliCommand::DeleteArchivedNotifications)
    } else if w == "docker-update-all-containers"@ {
        Some(CliCommand::DockerUpdateAllContainers)
    } else if w == "parity-check-pause"@ {
        Some(CliCommand::ParityCheckPause)
    } else if w == "parity-check-resume"@ {
        Some(CliCommand::ParityCheckResume)
    } else if w == "parity-check-cancel"@ {
        Some(CliCommand::ParityCheckCancel)
    } else if w == "doctor"@ {
        Some(CliCommand::Doctor)
    } else {
        None
    }
}

/// The command named by a single word, if any.
fn single_word_command(w: &str) -> (r: Option<CliCommand>)
    ensures
        r == spec_single_word_command(w@),
{
    if str_eq(w, "array") {
        return Some(CliCommand::Array);
    }
    if str_eq(w, "disks") {
        return Some(CliCommand::Disks);
    }
    if str_eq(w, "docker") {
        return Some(CliCommand::Docker);
    }
    if str_eq(w, "vms") {
        return Some(CliCommand::Vms);
    }
    if str_eq(w, "server") {
        return Some(CliCommand::Server);
    }
    if str_eq(w, "info") {
        return Some(CliCommand::Info);
    }
    if str_eq(w, "shares") {
        return Some(CliCommand::Shares);
    }
    if str_eq(w, "notifications") {
        return Some(CliCommand::Notifications);
    }
    if str_eq(w, "log-files") {
        return Some(CliCommand::LogFiles);
    }
    if str_eq(w, "services") {
        return Some(CliCommand::Services);
    }
    if str_eq(w, "network") {
        return Some(CliCommand::Network);
    }
    if str_eq(w, "ups") {
        return Some(CliCommand::Ups);
    }
    if str_eq(w, "ups-config") {
        return Some(CliCommand::UpsConfig);
    }
    if str_eq(w, "metrics") {
        return Some(CliCommand::Metrics);
    }
    if str_eq(w, "plugins") {
        return Some(CliCommand::Plugins);
    }
    if str_eq(w, "parity-history") {
        return Some(CliCommand::ParityHistory);
    }
    if str_eq(w, "vars") {
        return Some(CliCommand::Vars);
    }
    if str_eq(w, "registration") {
        return Some(CliCommand::Registration);
    }
    if str_eq(w, "flash") {
        return Some(CliCommand::Flash);
    }
    if str_eq(w, "rclone") {
        return Some(CliCommand::Rclone);
    }
    if str_eq(w, "remote-access") {
        return Some(CliCommand::RemoteAccess);
    }
    if str_eq(w, "connect") {
        return Some(CliCommand::Connect);
    }
    if str_eq(w, "online") {
        return Some(CliCommand::Online);
    }
    if str_eq(w, "system-time") {
        return Some(CliCommand::SystemTime);
    }
    if str_eq(w, "installed-unraid-plugins") || str_eq(w, "installed-plugins") {
        return Some(CliCommand::InstalledUnraidPlugins);
    }
    if str_eq(w, "is-sso-enabled") || str_eq(w, "sso") {
        return Some(CliCommand::IsSsoEnabled);
    }
    if str_eq(w, "public-oidc-providers") {
        return Some(CliCommand::PublicOidcProviders);
    }
    if str_eq(w, "oidc-providers") {
        return Some(CliCommand::OidcProviders);
    }
    if str_eq(w, "oidc-configuration") || str_eq(w, "oidc-config") {
        return Some(CliCommand::OidcConfiguration);
    }
    if str_eq(w, "api-keys") {
        return Some(CliCommand::ApiKeys);
    }
    if str_eq(w, "api-key-possible-roles") || str_eq(w, "possible-roles") {
        return Some(CliCommand::ApiKeyPossibleRoles);
    }
    if str_eq(w, "api-key-possible-permissions") || str_eq(w, "possible-permissions") {
        return Some(CliCommand::ApiKeyPossiblePermissions);
    }
    if str_eq(w, "get-available-auth-actions") || str_eq(w, "auth-actions") {
        return Some(CliCommand::GetAvailableAuthActions);
    }
    if str_eq(w, "get-api-key-creation-form-schema") || str_eq(w, "api-key-form-schema") {
        return Some(CliCommand::GetApiKeyCreationFormSchema);
    }
    if str_eq(w, "config") {
        return Some(CliCommand::Config);
    }
    if str_eq(w, "settings") {
        return Some(CliCommand::Settings);
    }
    if str_eq(w, "display") {
        return Some(CliCommand::Display);
    }
    if str_eq(w, "customization") {
        return Some(CliCommand::Customization);
    }
    if str_eq(w, "internal-boot-context") || str_eq(w, "boot-context") {
        return Some(CliCommand::InternalBootContext);
    }
    if str_eq(w, "me") {
        return Some(CliCommand::Me);
    }
    if str_eq(w, "owner") {
        return Some(CliCommand::Owner);
    }
    if str_eq(w, "servers") {
        return Some(CliCommand::Servers);
    }
    if str_eq(w, "is-fresh-install") || str_eq(w, "fresh-install") {
        return Some(CliCommand::IsFreshInstall);
    }
    if str_eq(w, "public-theme") || str_eq(w, "theme") {
        return Some(CliCommand::PublicTheme);
    }
    if str_eq(w, "network-interfaces") || str_eq(w, "nics") {
        return Some(CliCommand::NetworkInterfaces);
    }
    if str_eq(w, "time-zone-options") || str_eq(w, "timezones") {
        return Some(CliCommand::TimeZoneOptions);
    }
    if str_eq(w, "assignable-disks") {
        return Some(CliCommand::AssignableDisks);
    }
    if str_eq(w, "plugin-install-operations") || str_eq(w, "plugin-ops") {
        return Some(CliCommand::PluginInstallOperations);
    }
    if str_eq(w, "cloud") {
        return Some(CliCommand::Cloud);
    }
    if str_eq(w, "recalculate-overview") {
        return Some(CliCommand::RecalculateOverview);
    }
    if str_eq(w, "delete-archived-notifications") {
        return Some(CliCommand::DeleteArchivedNotifications);
    }
    if str_eq(w, "docker-update-all-containers") {
        return Some(CliCommand::DockerUpdateAllContainers);
    }
    if str_eq(w, "parity-check-pause") {
        return Some(CliCommand::ParityCheckPause);
    }
    if str_eq(w, "parity-check-resume") {
        return Some(CliCommand::ParityCheckResume);
    }
    if str_eq(w, "parity-check-cancel") {
        return Some(CliCommand::ParityCheckCancel);
    }
    if str_eq(w, "doctor") {
        return Some(CliCommand::Doctor);
    }
    None
}

/// The argument-free command named by two words, if any.
pub open spec fn spec_two_word_command(a: Seq<char>, b: Seq<char>) -> Option<CliCommand> {
    if a == "log"@ && b == "files"@ {
        Some(CliCommand::LogFiles)
    } else if a == "ups"@ && b == "config"@ {
        Some(CliCommand::UpsConfig)
    } else if a == "parity"@ && b == "history"@ {
        Some(CliCommand::ParityHistory)
    } else if a == "remote"@ && b == "access"@ {
        Some(CliCommand::RemoteAccess)
    } else if a == "system"@ && b == "time"@ {
        Some(CliCommand::SystemTime)
    } else if a == "setup"@ && b == "check"@ {
        Some(CliCommand::Setup(SetupCommand::Check))
    } else if a == "setup"@ && b == "repair"@ {
        Some(CliCommand::Setup(SetupCommand::Repair))
    } else if a == "setup"@ && b == "install"@ {
        Some(CliCommand::Setup(SetupCommand::Install))
    } else {
        None
    }
}

/// The argument-free command named by two words, if any.
fn two_word_command(a: &str, b: &str) -> (r: Option<CliCommand>)
    ensures
        r == spec_two_word_command(a@, b@),
{
    if str_eq(a, "log") && str_eq(b, "files") {
        return Some(CliCommand::LogFiles);
    }
    if str_eq(a, "ups") && str_eq(b, "config") {
        return Some(CliCommand::UpsConfig);
    }
    if str_eq(a, "parity") && str_eq(b, "history") {
        return Some(CliCommand::ParityHistory);
    }
    if str_eq(a, "remote") && str_eq(b, "access") {
        return Some(CliCommand::RemoteAccess);
    }
    if str_eq(a, "system") && str_eq(b, "time") {
        return Some(CliCommand::SystemTime);
    }
    if str_eq(a, "setup") && str_eq(b, "check") {
        return Some(CliCommand::Setup(SetupCommand::Check));
    }
    if str_eq(a, "setup") && str_eq(b, "repair") {
        return Some(CliCommand::Setup(SetupCommand::Repair));
    }
    if str_eq(a, "setup") && str_eq(b, "install") {
        return Some(CliCommand::Setup(SetupCommand::Install));
    }
    None
}

/// The command that takes a single identifier after the word `w`, if any.
pub open spec fn spec_id_command(w: Seq<char>, id: String) -> Option<CliCommand> {
    if w == "api-key"@ {
        Some(CliCommand::ApiKey(id))
    } else if w == "disk"@ {
        Some(CliCommand::Disk(id))
    } else if w == "oidc-provider"@ {
        Some(CliCommand::OidcProvider(id))
    } else if w == "ups-device"@ || w == "ups-device-by-id"@ {
        Some(CliCommand::UpsDeviceById(id))
    } else if w == "plugin-install-operation"@ || w == "plugin-op"@ {
        Some(CliCommand::PluginInstallOperation(id))
    } else if w == "validate-oidc-session"@ {
        Some(CliCommand::ValidateOidcSession(id))
    } else if w == "archive-notification"@ {
        Some(CliCommand::ArchiveNotification(id))
    } else if w == "vm-start"@ {
        Some(CliCommand::VmStart(id))
    } else if w == "vm-stop"@ {
        Some(CliCommand::VmStop(id))
    } else if w == "vm-pause"@ {
        Some(CliCommand::VmPause(id))
    } else if w == "vm-resume"@ {
        Some(CliCommand::VmResume(id))
    } else if w == "vm-force-stop"@ {
        Some(CliCommand::VmForceStop(id))
    } else if w == "vm-reboot"@ {
        Some(CliCommand::VmReboot(id))
    } else if w == "vm-reset"@ {
        Some(CliCommand::VmReset(id))
    } else if w == "docker-start"@ {
        Some(CliCommand::DockerStart(id))
    } else if w == "docker-stop"@ {
        Some(CliCommand::DockerStop(id))
    } else if w == "docker-pause"@ {
        Some(CliCommand::DockerPause(id))
    } else if w == "docker-unpause"@ {
        Some(CliCommand::DockerUnpause(id))
    } else if w == "docker-update-container"@ {
        Some(CliCommand::DockerUpdateContainer(id))
    } else if w == "docker-remove-container"@ {
        Some(CliCommand::DockerRemoveContainer(id))
    } else if w == "array-set-state"@ {
        Some(CliCommand::ArraySetState(id))
    } else if w == "array-add-disk-to-array"@ {
        Some(CliCommand::ArrayAddDiskToArray(id))
    } else if w == "array-remove-disk-from-array"@ {
        Some(CliCommand::ArrayRemoveDiskFromArray(id))
    } else if w == "array-mount-array-disk"@ {
        Some(CliCommand::ArrayMountArrayDisk(id))
    } else if w == "array-unmount-array-disk"@ {
        Some(CliCommand::ArrayUnmountArrayDisk(id))
    } else if w == "array-clear-array-disk-statistics"@ {
        Some(CliCommand::ArrayClearArrayDiskStatistics(id))
    } else {
        None
    }
}

/// The command that takes a single identifier after the word `w`, if any.
fn id_command(w: &str, id: &String) -> (r: Option<CliCommand>)
    ensures
        r == spec_id_command(w@, *id),
{
    if str_eq(w, "api-key") {
        return Some(CliCommand::ApiKey(id.clone()));
    }
    if str_eq(w, "disk") {
        return Some(CliCommand::Disk(id.clone()));
    }
    if str_eq(w, "oidc-provider") {
        return Some(CliCommand::OidcProvider(id.clone()));
    }
    if str_eq(w, "ups-device") || str_eq(w, "ups-device-by-id") {
        return Some(CliCommand::UpsDeviceById(id.clone()));
    }
    if str_eq(w, "plugin-install-operation") || str_eq(w, "plugin-op") {
        return Some(CliCommand::PluginInstallOperation(id.clone()));
    }
    if str_eq(w, "validate-oidc-session") {
        return Some(CliCommand::ValidateOidcSession(id.clone()));
    }
    if str_eq(w, "archive-notification") {
        return Some(CliCommand::ArchiveNotification(id.clone()));
    }
    if str_eq(w, "vm-start") {
        return Some(CliCommand::VmStart(id.clone()));
    }
    if str_eq(w, "vm-stop") {
        return Some(CliCommand::VmStop(id.clone()));
    }
    if str_eq(w, "vm-pause") {
        return Some(CliCommand::VmPause(id.clone()));
    }
    if str_eq(w, "vm-resume") {
        return Some(CliCommand::VmResume(id.clone()));
    }
    if str_eq(w, "vm-force-stop") {
        return Some(CliCommand::VmForceStop(id.clone()));
    }
    if str_eq(w, "vm-reboot") {
        return Some(CliCommand::VmReboot(id.clone()));
    }
    if str_eq(w, "vm-reset") {
        return Some(CliCommand::VmReset(id.clone()));
    }
    if str_eq(w, "docker-start") {
        return Some(CliCommand::DockerStart(id.clone()));
    }
    if str_eq(w, "docker-stop") {
        return Some(CliCommand::DockerStop(id.clone()));
    }
    if str_eq(w, "docker-pause") {
        return Some(CliCommand::DockerPause(id.clone()));
    }
    if str_eq(w, "docker-unpause") {
        return Some(CliCommand::DockerUnpause(id.clone()));
    }
    if str_eq(w, "docker-update-container") {
        return Some(CliCommand::DockerUpdateContainer(id.clone()));
    }
    if str_eq(w, "docker-remove-container") {
        return Some(CliCommand::DockerRemoveContainer(id.clone()));
    }
    if str_eq(w, "array-set-state") {
        return Some(CliCommand::ArraySetState(id.clone()));
    }
    if str_eq(w, "array-add-disk-to-array") {
        return Some(CliCommand::ArrayAddDiskToArray(id.clone()));
    }
    if str_eq(w, "array-remove-disk-from-array") {
        return Some(CliCommand::ArrayRemoveDiskFromArray(id.clone()));
    }
    if str_eq(w, "array-mount-array-disk") {
        return Some(CliCommand::ArrayMountArrayDisk(id.clone()));
    }
    if str_eq(w, "array-unmount-array-disk") {
        return Some(CliCommand::ArrayUnmountArrayDisk(id.clone()));
    }
    if str_eq(w, "array-clear-array-disk-statistics") {
        return Some(CliCommand::ArrayClearArrayDiskStatistics(id.clone()));
    }
    None
}

/// Splits `args` into the words other than `--json`, and whether `--json` occurred.
fn strip_json(args: &[String]) -> (r: (Vec<String>, bool))
    ensures
        r.0@ == spec_strip_json(args@),
        r.1 == spec_has_json(args@),
{
    let mut rest: Vec<String> = Vec::new();
    let mut json = false;
    let mut i: usize = 0;
    while i < args.len()
        invariant
            i <= args@.len(),
            rest@ == spec_strip_json(args@.take(i as int)),
            json == spec_has_json(args@.take(i as int)),
        decreases args@.len() - i,
    {
        let a = &args[i];
        let ghost prev = args@.take(i as int);
        let ghost next = args@.take(i + 1);
        assert(next.drop_last() =~= prev);
        assert(next.last() == *a);
        let is_json = str_eq(a.as_str(), "--json");
        if is_json {
            json = true;
        } else {
            rest.push(a.clone());
        }
        proof {
            if is_json {
                assert(next[i as int]@ == "--json"@);
            } else {
                assert forall|k: int| 0 <= k < next.len() && (#[trigger] next[k])@ == "--json"@
                    implies 0 <= k < prev.len() && prev[k]@ == "--json"@ by {
                    assert(k != i);
                    assert(prev[k] == next[k]);
                }
            }
            if spec_has_json(prev) {
                let k = choose|k: int| 0 <= k < prev.len() && (#[trigger] prev[k])@ == "--json"@;
                assert(next[k] == prev[k]);
            }
        }
        i = i + 1;
    }
    assert(args@.take(args@.len() as int) =~= args@);
    (rest, json)
}

/// `spec_first_index` finds the first matching word.
proof fn lemma_first_index(s: Seq<String>, w: Seq<char>)
    ensures
        match spec_first_index(s, w) {
            Some(i) => 0 <= i < s.len() && s[i]@ == w && forall|k: int| 0 <= k < i ==> (#[trigger] s[k])@ != w,
            None => forall|k: int| 0 <= k < s.len() ==> (#[trigger] s[k])@ != w,
        },
    decreases s.len(),
{
    if s.len() > 0 && s[0]@ != w {
        let t = s.drop_first();
        lemma_first_index(t, w);
        match spec_first_index(t, w) {
            Some(i) => {
                assert forall|k: int| 0 <= k < i + 1 implies (#[trigger] s[k])@ != w by {
                    if k > 0 {
                        assert(s[k] == t[k - 1]);
                    }
                }
                assert(s[i + 1] == t[i]);
            },
            None => {
                assert forall|k: int| 0 <= k < s.len() implies (#[trigger] s[k])@ != w by {
                    if k > 0 {
                        assert(s[k] == t[k - 1]);
                    }
                }
            },
        }
    }
}

/// The position of the first word equal to `w`.
fn first_index(words: &Vec<String>, w: &str) -> (r: Option<usize>)
    ensures
        match spec_first_index(words@, w@) {
            Some(i) => r == Some(i as usize),
            None => r is None,
        },
        r matches Some(p) ==> p < words@.len(),
{
    proof {
        lemma_first_index(words@, w@);
    }
    let mut i: usize = 0;
    while i < words.len()
        invariant
            i <= words@.len(),
            forall|k: int| 0 <= k < i ==> (#[trigger] words@[k])@ != w@,
        decreases words@.len() - i,
    {
        if str_eq(words[i].as_str(), w) {
            proof {
                lemma_first_index(words@, w@);
                match spec_first_index(words@, w@) {
                    Some(j) => {
                        if j < i {
                        } else if i < j {
                            assert(words@[i as int]@ != w@);
                        }
                    },
                    None => {
                        assert(words@[i as int]@ != w@);
                    },
                }
            }
            return Some(i);
        }
        i = i + 1;
    }
    None
}

/// `r` is the executable counterpart of the flag lookup result `expected`.
pub open spec fn flag_result_is(r: Result<Option<i64>, CliError>, expected: Result<Option<i64>, CliErrorView>) -> bool {
    match (r, expected) {
        (Ok(a), Ok(b)) => a == b,
        (Err(a), Err(b)) => a@ == b,
        _ => false,
    }
}

/// The integer value of `flag` among `words` (see [`spec_flag_i64`]).
pub fn flag_i64(words: &Vec<String>, flag: &str) -> (r: Result<Option<i64>, CliError>)
    ensures
        flag_result_is(r, spec_flag_i64(words@, flag@)),
{
    proof {
        lemma_first_index(words@, flag@);
    }
    match first_index(words, flag) {
        None => Ok(None),
        Some(pos) => {
            if pos < words.len() - 1 {
                let val = &words[pos + 1];
                match parse_i64(val.as_str()) {
                    Some(v) => Ok(Some(v)),
                    None => Err(CliError::InvalidInteger { flag: String::from_str(flag), value: val.clone() }),
                }
            } else {
                Err(CliError::MissingFlagValue(String::from_str(flag)))
            }
        },
    }
}

/// Copies of the words of `words` from position `from` on.
fn words_from(words: &Vec<String>, from: usize) -> (r: Vec<String>)
    requires
        from <= words@.len(),
    ensures
        r@ == words@.skip(from as int),
{
    let mut r: Vec<String> = Vec::new();
    let mut i = from;
    while i < words.len()
        invariant
            from <= i <= words@.len(),
            r@ == words@.subrange(from as int, i as int),
        decreases words@.len() - i,
    {
        r.push(words[i].clone());
        i = i + 1;
        assert(r@ =~= words@.subrange(from as int, i as int));
    }
    assert(words@.subrange(from as int, words@.len() as int) =~= words@.skip(from as int));
    r
}

/// Whether some word at position `from` or later equals `w`.
fn contains_from(words: &Vec<String>, from: usize, w: &str) -> (r: bool)
    ensures
        r == exists|k: int| from <= k < words@.len() && (#[trigger] words@[k])@ == w@,
{
    let mut i = from;
    while i < words.len()
        invariant
            from <= i,
            forall|k: int| from <= k < i ==> (#[trigger] words@[k])@ != w@,
        decreases words@.len() - i,
    {
        if str_eq(words[i].as_str(), w) {
            assert(words@[i as int]@ == w@);
            return true;
        }
        i = i + 1;
    }
    false
}

impl CliCommand {
    /// Parses command-line arguments into a `(command, json_mode)` pair.
    ///
    /// `--json` may appear anywhere and selects JSON output; the remaining words
    /// select the command. An unrecognised command line is an error whose message
    /// points to `--help`.
    pub fn parse(args: &[String]) -> (r: Result<(CliCommand, bool), CliError>)
        ensures
            spec_parse_result(args@, r),
    {
        let (rest, json) = strip_json(args);
        let n = rest.len();
        if n == 1 {
            if let Some(c) = single_word_command(rest[0].as_str()) {
                return Ok((c, json));
            }
        }
        if n == 2 {
            if let Some(c) = two_word_command(rest[0].as_str(), rest[1].as_str()) {
                return Ok((c, json));
            }
            if let Some(c) = id_command(rest[0].as_str(), &rest[1]) {
                return Ok((c, json));
            }
        }
        if n >= 3 && str_eq(rest[0].as_str(), "docker") && str_eq(rest[1].as_str(), "logs") {
            return match flag_i64(&rest, "--tail") {
                Ok(tail) => Ok((CliCommand::DockerLogs { id: rest[2].clone(), tail }, json)),
                Err(e) => Err(e),
            };
        }
        if n >= 2 && (str_eq(rest[0].as_str(), "log") || str_eq(rest[0].as_str(), "log-file")) {
            let lines = match flag_i64(&rest, "--lines") {
                Ok(v) => v,
                Err(e) => {
                    return Err(e);
                },
            };
            let start_line = match flag_i64(&rest, "--start-line") {
                Ok(v) => v,
                Err(e) => {
                    return Err(e);
                },
            };
            return Ok((CliCommand::LogFile { path: rest[1].clone(), lines, start_line }, json));
        }
        if n >= 2 && str_eq(rest[0].as_str(), "get-permissions-for-roles") {
            return Ok((CliCommand::GetPermissionsForRoles(words_from(&rest, 1)), json));
        }
        if n >= 5 && str_eq(rest[0].as_str(), "create-notification") {
            let link = if n > 5 { Some(rest[5].clone()) } else { None };
            return Ok((
                CliCommand::CreateNotification {
                    title: rest[1].clone(),
                    subject: rest[2].clone(),
                    description: rest[3].clone(),
                    importance: rest[4].clone(),
                    link,
                },
                json,
            ));
        }
        if n >= 1 && str_eq(rest[0].as_str(), "parity-check-start") {
            let correct = n >= 2 && (str_eq(rest[1].as_str(), "correct") || str_eq(rest[1].as_str(), "true"));
            return Ok((CliCommand::ParityCheckStart(correct), json));
        }
        if n >= 2 && str_eq(rest[0].as_str(), "docker-update-containers") {
            return Ok((CliCommand::DockerUpdateContainers(words_from(&rest, 1)), json));
        }
        if n >= 2 && str_eq(rest[0].as_str(), "setup") && str_eq(rest[1].as_str(), "plugin-hook") {
            let no_repair = contains_from(&rest, 2, "--no-repair");
            return Ok((CliCommand::Setup(SetupCommand::PluginHook { no_repair }), json));
        }
        let line = join_strings(&rest, " ");
        Err(CliError::UnknownCommand(line))
    }
}

/// `--json` may stand anywhere on a command line: inserting it at any position
/// leaves the words that select the command unchanged, and sets the JSON flag.
pub proof fn lemma_json_flag_anywhere(args: Seq<String>, i: int, flag: String)
    requires
        0 <= i <= args.len(),
        flag@ == "--json"@,
    ensures
        spec_strip_json(args.insert(i, flag)) == spec_strip_json(args),
        spec_command(spec_strip_json(args.insert(i, flag))) == spec_command(spec_strip_json(args)),
        spec_has_json(args.insert(i, flag)),
    decreases args.len(),
{
    let with = args.insert(i, flag);
    assert(with[i] == flag);
    if i == args.len() {
        assert(with.drop_last() =~= args);
    } else {
        lemma_json_flag_anywhere(args.drop_last(), i, flag);
        assert(with.drop_last() =~= args.drop_last().insert(i, flag));
        assert(with.last() == args.last());
    }
}

/// Command lines of several words hand their words to the command they name, in
/// place: `docker logs <id>` reads the id after `logs`, `log <path>` (or
/// `log-file <path>`) the path after the word, `create-notification` its title,
/// subject, description, importance and optional link in that order,
/// `parity-check-start correct` (or `true`) asks for a correcting check and
/// anything else for a plain one, and the role names and container ids are the
/// words that follow their command word. Only a malformed flag value can make
/// such a line fail.
pub proof fn lemma_command_lines_hand_over_their_words(rest: Seq<String>)
    ensures
        rest.len() >= 3 && rest[0]@ == "docker"@ && rest[1]@ == "logs"@ ==> (spec_command(rest) is Failure || (
        spec_command(rest) matches ParseOutcome::Command(CliCommand::DockerLogs { id, tail: _ }) && id == rest[2])),
        rest.len() >= 2 && (rest[0]@ == "log"@ || rest[0]@ == "log-file"@) && !(rest.len() == 2 && rest[0]@ == "log"@
            && rest[1]@ == "files"@) ==> (spec_command(rest) is Failure || (spec_command(rest) matches ParseOutcome::Command(
        CliCommand::LogFile { path, lines: _, start_line: _ }) && path == rest[1])),
        rest.len() >= 2 && rest[0]@ == "get-permissions-for-roles"@ ==> spec_command(rest) == ParseOutcome::Roles(
            rest.drop_first(),
        ),
        rest.len() >= 2 && rest[0]@ == "docker-update-containers"@ ==> spec_command(rest) == ParseOutcome::Containers(
            rest.drop_first(),
        ),
        rest.len() >= 5 && rest[0]@ == "create-notification"@ ==> (spec_command(rest) matches ParseOutcome::Command(
            CliCommand::CreateNotification { title, subject, description, importance, link },
        ) && title == rest[1] && subject == rest[2] && description == rest[3] && importance == rest[4] && (link
            is Some <==> rest.len() > 5) && (rest.len() > 5 ==> link == Some(rest[5]))),
        rest.len() >= 2 && rest[0]@ == "parity-check-start"@ ==> (spec_command(rest) matches ParseOutcome::Command(
            CliCommand::ParityCheckStart(b),
        ) && (b <==> (rest[1]@ == "correct"@ || rest[1]@ == "true"@))),
{
    reveal_strlit("api-key");
    reveal_strlit("archive-notification");
    reveal_strlit("array-add-disk-to-array");
    reveal_strlit("array-clear-array-disk-statistics");
    reveal_strlit("array-mount-array-disk");
    reveal_strlit("array-remove-disk-from-array");
    reveal_strlit("array-set-state");
    reveal_strlit("array-unmount-array-disk");
    reveal_strlit("correct");
    reveal_strlit("create-notification");
    reveal_strlit("disk");
    reveal_strlit("docker");
    reveal_strlit("docker-pause");
    reveal_strlit("docker-remove-container");
    reveal_strlit("docker-start");
    reveal_strlit("docker-stop");
    reveal_strlit("docker-unpause");
    reveal_strlit("docker-update-container");
    reveal_strlit("docker-update-containers");
    reveal_strlit("files");
    reveal_strlit("get-permissions-for-roles");
    reveal_strlit("log");
    reveal_strlit("log-file");
    reveal_strlit("logs");
    reveal_strlit("oidc-provider");
    reveal_strlit("parity");
    reveal_strlit("parity-check-start");
    reveal_strlit("plugin-install-operation");
    reveal_strlit("plugin-op");
    reveal_strlit("remote");
    reveal_strlit("setup");
    reveal_strlit("system");
    reveal_strlit("true");
    reveal_strlit("ups");
    reveal_strlit("ups-device");
    reveal_strlit("ups-device-by-id");
    reveal_strlit("validate-oidc-session");
    reveal_strlit("vm-force-stop");
    reveal_strlit("vm-pause");
    reveal_strlit("vm-reboot");
    reveal_strlit("vm-reset");
    reveal_strlit("vm-resume");
    reveal_strlit("vm-start");
    reveal_strlit("vm-stop");
    assert("log"@[0] != "ups"@[0]);
    assert("log-file"@[0] != "vm-pause"@[0]);
    assert("log-file"@[0] != "vm-reset"@[0]);
    assert("log-file"@[0] != "vm-start"@[0]);
    assert("docker-update-containers"@[0] != "array-unmount-array-disk"@[0]);
    assert("docker-update-containers"@[0] != "plugin-install-operation"@[0]);
    assert("log"@.len() != "api-key"@.len());
    assert("log"@.len() != "archive-notification"@.len());
    assert("log"@.len() != "array-add-disk-to-array"@.len());
    assert("log"@.len() != "array-clear-array-disk-statistics"@.len());
    assert("log"@.len() != "array-mount-array-disk"@.len());
    assert("log"@.len() != "array-remove-disk-from-array"@.len());
    assert("log"@.len() != "array-set-state"@.len());
    assert("log"@.len() != "array-unmount-array-disk"@.len());
    assert("log"@.len() != "create-notification"@.len());
    assert("log"@.len() != "disk"@.len());
    assert("log"@.len() != "docker"@.len());
    assert("log"@.len() != "docker-pause"@.len());
    assert("log"@.len() != "docker-remove-container"@.len());
    assert("log"@.len() != "docker-start"@.len());
    assert("log"@.len() != "docker-stop"@.len());
    assert("log"@.len() != "docker-unpause"@.len());
    assert("log"@.len() != "docker-update-container"@.len());
    assert("log"@.len() != "docker-update-containers"@.len());
    assert("log"@.len() != "get-permissions-for-roles"@.len());
    assert("log"@.len() != "log-file"@.len());
    assert("log"@.len() != "oidc-provider"@.len());
    assert("log"@.len() != "parity"@.len());
    assert("log"@.len() != "parity-check-start"@.len());
    assert("log"@.len() != "plugin-install-operation"@.len());
    assert("log"@.len() != "plugin-op"@.len());
    assert("log"@.len() != "remote"@.len());
    assert("log"@.len() != "setup"@.len());
    assert("log"@.len() != "system"@.len());
    assert("log"@.len() != "ups-device"@.len());
    assert("log"@.len() != "ups-device-by-id"@.len());
    assert("log"@.len() != "validate-oidc-session"@.len());
    assert("log"@.len() != "vm-force-stop"@.len());
    assert("log"@.len() != "vm-pause"@.len());
    assert("log"@.len() != "vm-reboot"@.len());
    assert("log"@.len() != "vm-reset"@.len());
    assert("log"@.len() != "vm-resume"@.len());
    assert("log"@.len() != "vm-start"@.len());
    assert("log"@.len() != "vm-stop"@.len());
    assert("log-file"@.len() != "api-key"@.len());
    assert("log-file"@.len() != "archive-notification"@.len());
    assert("log-file"@.len() != "array-add-disk-to-array"@.len());
    assert("log-file"@.len() != "array-clear-array-disk-statistics"@.len());
    assert("log-file"@.len() != "array-mount-array-disk"@.len());
    assert("log-file"@.len() != "array-remove-disk-from-array"@.len());
    assert("log-file"@.len() != "array-set-state"@.len());
    assert("log-file"@.len() != "array-unmount-array-disk"@.len());
    assert("log-file"@.len() != "create-notification"@.len());
    assert("log-file"@.len() != "disk"@.len());
    assert("log-file"@.len() != "docker"@.len());
    assert("log-file"@.len() != "docker-pause"@.len());
    assert("log-file"@.len() != "docker-remove-container"@.len());
    assert("log-file"@.len() != "docker-start"@.len());
    assert("log-file"@.len() != "docker-stop"@.len());
    assert("log-file"@.len() != "docker-unpause"@.len());
    assert("log-file"@.len() != "docker-update-container"@.len());
    assert("log-file"@.len() != "docker-update-containers"@.len());
    assert("log-file"@.len() != "get-permissions-for-roles"@.len());
    assert("log-file"@.len() != "log"@.len());
    assert("log-file"@.len() != "oidc-provider"@.len());
    assert("log-file"@.len() != "parity"@.len());
    assert("log-file"@.len() != "parity-check-start"@.len());
    assert("log-file"@.len() != "plugin-install-operation"@.len());
    assert("log-file"@.len() != "plugin-op"@.len());
    assert("log-file"@.len() != "remote"@.len());
    assert("log-file"@.len() != "setup"@.len());
    assert("log-file"@.len() != "system"@.len());
    assert("log-file"@.len() != "ups"@.len());
    assert("log-file"@.len() != "ups-device"@.len());
    assert("log-file"@.len() != "ups-device-by-id"@.len());
    assert("log-file"@.len() != "validate-oidc-session"@.len());
    assert("log-file"@.len() != "vm-force-stop"@.len());
    assert("log-file"@.len() != "vm-reboot"@.len());
    assert("log-file"@.len() != "vm-resume"@.len());
    assert("log-file"@.len() != "vm-stop"@.len());
    assert("get-permissions-for-roles"@.len() != "api-key"@.len());
    assert("get-permissions-for-roles"@.len() != "archive-notification"@.len());
    assert("get-permissions-for-roles"@.len() != "array-add-disk-to-array"@.len());
    assert("get-permissions-for-roles"@.len() != "array-clear-array-disk-statistics"@.len());
    assert("get-permissions-for-roles"@.len() != "array-mount-array-disk"@.len());
    assert("get-permissions-for-roles"@.len() != "array-remove-disk-from-array"@.len());
    assert("get-permissions-for-roles"@.len() != "array-set-state"@.len());
    assert("get-permissions-for-roles"@.len() != "array-unmount-array-disk"@.len());
    assert("get-permissions-for-roles"@.len() != "create-notification"@.len());
    assert("get-permissions-for-roles"@.len() != "disk"@.len());
    assert("get-permissions-for-roles"@.len() != "docker"@.len());
    assert("get-permissions-for-roles"@.len() != "docker-pause"@.len());
    assert("get-permissions-for-roles"@.len() != "docker-remove-container"@.len());
    assert("get-permissions-for-roles"@.len() != "docker-start"@.len());
    assert("get-permissions-for-roles"@.len() != "docker-stop"@.len());
    assert("get-permissions-for-roles"@.len() != "docker-unpause"@.len());
    assert("get-permissions-for-roles"@.len() != "docker-update-container"@.len());
    assert("get-permissions-for-roles"@.len() != "docker-update-containers"@.len());
    assert("get-permissions-for-roles"@.len() != "log"@.len());
    assert("get-permissions-for-roles"@.len() != "log-file"@.len());
    assert("get-permissions-for-roles"@.len() != "oidc-provider"@.len());
    assert("get-permissions-for-roles"@.len() != "parity"@.len());
    assert("get-permissions-for-roles"@.len() != "parity-check-start"@.len());
    assert("get-permissions-for-roles"@.len() != "plugin-install-operation"@.len());
    assert("get-permissions-for-roles"@.len() != "plugin-op"@.len());
    assert("get-permissions-for-roles"@.len() != "remote"@.len());
    assert("get-permissions-for-roles"@.len() != "setup"@.len());
    assert("get-permissions-for-roles"@.len() != "system"@.len());
    assert("get-permissions-for-roles"@.len() != "ups"@.len());
    assert("get-permissions-for-roles"@.len() != "ups-device"@.len());
    assert("get-permissions-for-roles"@.len() != "ups-device-by-id"@.len());
    assert("get-permissions-for-roles"@.len() != "validate-oidc-session"@.len());
    assert("get-permissions-for-roles"@.len() != "vm-force-stop"@.len());
    assert("get-permissions-for-roles"@.len() != "vm-pause"@.len());
    assert("get-permissions-for-roles"@.len() != "vm-reboot"@.len());
    assert("get-permissions-for-roles"@.len() != "vm-reset"@.len());
    assert("get-permissions-for-roles"@.len() != "vm-resume"@.len());
    assert("get-permissions-for-roles"@.len() != "vm-start"@.len());
    assert("get-permissions-for-roles"@.len() != "vm-stop"@.len());
    assert("parity-check-start"@.len() != "api-key"@.len());
    assert("parity-check-start"@.len() != "archive-notification"@.len());
    assert("parity-check-start"@.len() != "array-add-disk-to-array"@.len());
    assert("parity-check-start"@.len() != "array-clear-array-disk-statistics"@.len());
    assert("parity-check-start"@.len() != "array-mount-array-disk"@.len());
    assert("parity-check-start"@.len() != "array-remove-disk-from-array"@.len());
    assert("parity-check-start"@.len() != "array-set-state"@.len());
    assert("parity-check-start"@.len() != "array-unmount-array-disk"@.len());
    assert("parity-check-start"@.len() != "create-notification"@.len());
    assert("parity-check-start"@.len() != "disk"@.len());
    assert("parity-check-start"@.len() != "docker"@.len());
    assert("parity-check-start"@.len() != "docker-pause"@.len());
    assert("parity-check-start"@.len() != "docker-remove-container"@.len());
    assert("parity-check-start"@.len() != "docker-start"@.len());
    assert("parity-check-start"@.len() != "docker-stop"@.len());
    assert("parity-check-start"@.len() != "docker-unpause"@.len());
    assert("parity-check-start"@.len() != "docker-update-container"@.len());
    assert("parity-check-start"@.len() != "docker-update-containers"@.len());
    assert("parity-check-start"@.len() != "get-permissions-for-roles"@.len());
    assert("parity-check-start"@.len() != "log"@.len());
    assert("parity-check-start"@.len() != "log-file"@.len());
    assert("parity-check-start"@.len() != "oidc-provider"@.len());
    assert("parity-check-start"@.len() != "parity"@.len());
    assert("parity-check-start"@.len() != "plugin-install-operation"@.len());
    assert("parity-check-start"@.len() != "plugin-op"@.len());
    assert("parity-check-start"@.len() != "remote"@.len());
    assert("parity-check-start"@.len() != "setup"@.len());
    assert("parity-check-start"@.len() != "system"@.len());
    assert("parity-check-start"@.len() != "ups"@.len());
    assert("parity-check-start"@.len() != "ups-device"@.len());
    assert("parity-check-start"@.len() != "ups-device-by-id"@.len());
    assert("parity-check-start"@.len() != "validate-oidc-session"@.len());
    assert("parity-check-start"@.len() != "vm-force-stop"@.len());
    assert("parity-check-start"@.len() != "vm-pause"@.len());
    assert("parity-check-start"@.len() != "vm-reboot"@.len());
    assert("parity-check-start"@.len() != "vm-reset"@.len());
    assert("parity-check-start"@.len() != "vm-resume"@.len());
    assert("parity-check-start"@.len() != "vm-start"@.len());
    assert("parity-check-start"@.len() != "vm-stop"@.len());
    assert("docker-update-containers"@.len() != "api-key"@.len());
    assert("docker-update-containers"@.len() != "archive-notification"@.len());
    assert("docker-update-containers"@.len() != "array-add-disk-to-array"@.len());
    assert("docker-update-containers"@.len() != "array-clear-array-disk-statistics"@.len());
    assert("docker-update-containers"@.len() != "array-mount-array-disk"@.len());
    assert("docker-update-containers"@.len() != "array-remove-disk-from-array"@.len());
    assert("docker-update-containers"@.len() != "array-set-state"@.len());
    assert("docker-update-containers"@.len() != "create-notification"@.len());
    assert("docker-update-containers"@.len() != "disk"@.len());
    assert("docker-update-containers"@.len() != "docker"@.len());
    assert("docker-update-containers"@.len() != "docker-pause"@.len());
    assert("docker-update-containers"@.len() != "docker-remove-container"@.len());
    assert("docker-update-containers"@.len() != "docker-start"@.len());
    assert("docker-update-containers"@.len() != "docker-stop"@.len());
    assert("docker-update-containers"@.len() != "docker-unpause"@.len());
    assert("docker-update-containers"@.len() != "docker-update-container"@.len());
    assert("docker-update-containers"@.len() != "get-permissions-for-roles"@.len());
    assert("docker-update-containers"@.len() != "log"@.len());
    assert("docker-update-containers"@.len() != "log-file"@.len());
    assert("docker-update-containers"@.len() != "oidc-provider"@.len());
    assert("docker-update-containers"@.len() != "parity"@.len());
    assert("docker-update-containers"@.len() != "parity-check-start"@.len());
    assert("docker-update-containers"@.len() != "plugin-op"@.len());
    assert("docker-update-containers"@.len() != "remote"@.len());
    assert("docker-update-containers"@.len() != "setup"@.len());
    assert("docker-update-containers"@.len() != "system"@.len());
    assert("docker-update-containers"@.len() != "ups"@.len());
    assert("docker-update-containers"@.len() != "ups-device"@.len());
    assert("docker-update-containers"@.len() != "ups-device-by-id"@.len());
    assert("docker-update-containers"@.len() != "validate-oidc-session"@.len());
    assert("docker-update-containers"@.len() != "vm-force-stop"@.len());
    assert("docker-update-containers"@.len() != "vm-pause"@.len());
    assert("docker-update-containers"@.len() != "vm-reboot"@.len());
    assert("docker-update-containers"@.len() != "vm-reset"@.len());
    assert("docker-update-containers"@.len() != "vm-resume"@.len());
    assert("docker-update-containers"@.len() != "vm-start"@.len());
    assert("docker-update-containers"@.len() != "vm-stop"@.len());
    assert("create-notification"@.len() != "api-key"@.len());
    assert("create-notification"@.len() != "archive-notification"@.len());
    assert("create-notification"@.len() != "array-add-disk-to-array"@.len());
    assert("create-notification"@.len() != "array-clear-array-disk-statistics"@.len());
    assert("create-notification"@.len() != "array-mount-array-disk"@.len());
    assert("create-notification"@.len() != "array-remove-disk-from-array"@.len());
    assert("create-notification"@.len() != "array-set-state"@.len());
    assert("create-notification"@.len() != "array-unmount-array-disk"@.len());
    assert("create-notification"@.len() != "disk"@.len());
    assert("create-notification"@.len() != "docker"@.len());
    assert("create-notification"@.len() != "docker-pause"@.len());
    assert("create-notification"@.len() != "docker-remove-container"@.len());
    assert("create-notification"@.len() != "docker-start"@.len());
    assert("create-notification"@.len() != "docker-stop"@.len());
    assert("create-notification"@.len() != "docker-unpause"@.len());
    assert("create-notification"@.len() != "docker-update-container"@.len());
    assert("create-notification"@.len() != "docker-update-containers"@.len());
    assert("create-notification"@.len() != "get-permissions-for-roles"@.len());
    assert("create-notification"@.len() != "log"@.len());
    assert("create-notification"@.len() != "log-file"@.len());
    assert("create-notification"@.len() != "oidc-provider"@.len());
    assert("create-notification"@.len() != "parity"@.len());
    assert("create-notification"@.len() != "parity-check-start"@.len());
    assert("create-notification"@.len() != "plugin-install-operation"@.len());
    assert("create-notification"@.len() != "plugin-op"@.len());
    assert("create-notification"@.len() != "remote"@.len());
    assert("create-notification"@.len() != "setup"@.len());
    assert("create-notification"@.len() != "system"@.len());
    assert("create-notification"@.len() != "ups"@.len());
    assert("create-notification"@.len() != "ups-device"@.len());
    assert("create-notification"@.len() != "ups-device-by-id"@.len());
    assert("create-notification"@.len() != "validate-oidc-session"@.len());
    assert("create-notification"@.len() != "vm-force-stop"@.len());
    assert("create-notification"@.len() != "vm-pause"@.len());
    assert("create-notification"@.len() != "vm-reboot"@.len());
    assert("create-notification"@.len() != "vm-reset"@.len());
    assert("create-notification"@.len() != "vm-resume"@.len());
    assert("create-notification"@.len() != "vm-start"@.len());
    assert("create-notification"@.len() != "vm-stop"@.len());
}

} // verus!
