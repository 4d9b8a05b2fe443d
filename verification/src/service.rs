//! The upstream operations the service exposes, and the mapping from CLI
//! commands onto them.

use vstd::prelude::*;
use crate::actions::{ActionSpec, is_data_action, is_write_action, lemma_action_names_distinct, spec_actions};
use crate::cli::{CliCommand, spec_id_command, spec_single_word_command, spec_two_word_command};

verus! {

/// One call into the Unraid service, with its arguments. Each variant is named
/// after, and corresponds to, the `unraid` action of the same (snake_case) name.
#[derive(Clone, Debug, PartialEq, Eq)]
pub enum ServiceCall {
    Array,
    Disks,
    Docker,
    DockerLogs { id: String, tail: Option<i64> },
    Vms,
    Server,
    Info,
    Shares,
    Notifications,
    LogFiles,
    LogFile { path: String, lines: Option<i64>, start_line: Option<i64> },
    Services,
    Network,
    Ups,
    UpsConfig,
    Metrics,
    Plugins,
    ParityHistory,
    Vars,
    Registration,
    Flash,
    Rclone,
    RemoteAccess,
    Connect,
    Online,
    SystemTime,
    InstalledUnraidPlugins,
    IsSsoEnabled,
    PublicOidcProviders,
    OidcProviders,
    OidcConfiguration,
    ApiKeys,
    ApiKeyPossibleRoles,
    ApiKeyPossiblePermissions,
    GetAvailableAuthActions,
    GetApiKeyCreationFormSchema,
    Config,
    Settings,
    Display,
    Customization,
    InternalBootContext,
    Me,
    Owner,
    Servers,
    IsFreshInstall,
    PublicTheme,
    NetworkInterfaces,
    TimeZoneOptions,
    AssignableDisks,
    PluginInstallOperations,
    Cloud,
    ApiKey(String),
    Disk(String),
    OidcProvider(String),
    UpsDeviceById(String),
    PluginInstallOperation(String),
    ValidateOidcSession(String),
    GetPermissionsForRoles(Vec<String>),
    RecalculateOverview,
    DeleteArchivedNotifications,
    ArchiveNotification(String),
    CreateNotification { title: String, subject: String, description: String, importance: String, link: Option<String> },
    VmStart(String),
    VmStop(String),
    VmPause(String),
    VmResume(String),
    VmForceStop(String),
    VmReboot(String),
    VmReset(String),
    DockerStart(String),
    DockerStop(String),
    DockerPause(String),
    DockerUnpause(String),
    DockerUpdateContainer(String),
    DockerRemoveContainer { id: String, with_image: Option<bool> },
    DockerUpdateContainers(Vec<String>),
    DockerUpdateAllContainers,
    ArraySetState(String),
    ArrayAddDiskToArray { id: String, slot: Option<i32> },
    ArrayRemoveDiskFromArray { id: String, slot: Option<i32> },
    ArrayMountArrayDisk(String),
    ArrayUnmountArrayDisk(String),
    ArrayClearArrayDiskStatistics(String),
    ParityCheckStart(bool),
    ParityCheckPause,
    ParityCheckResume,
    ParityCheckCancel,
}

/// The action name of a service call (also the label the CLI prints).
pub open spec fn spec_call_name(c: ServiceCall) -> &'static str {
    match c {
        ServiceCall::Array => "array",
        ServiceCall::Disks => "disks",
        ServiceCall::Docker => "docker",
        ServiceCall::DockerLogs { .. } => "docker_logs",
        ServiceCall::Vms => "vms",
        ServiceCall::Server => "server",
        ServiceCall::Info => "info",
        ServiceCall::Shares => "shares",
        ServiceCall::Notifications => "notifications",
        ServiceCall::LogFiles => "log_files",
        ServiceCall::LogFile { .. } => "log_file",
        ServiceCall::Services => "services",
        ServiceCall::Network => "network",
        ServiceCall::Ups => "ups",
        ServiceCall::UpsConfig => "ups_config",
        ServiceCall::Metrics => "metrics",
        ServiceCall::Plugins => "plugins",
        ServiceCall::ParityHistory => "parity_history",
        ServiceCall::Vars => "vars",
        ServiceCall::Registration => "registration",
        ServiceCall::Flash => "flash",
        ServiceCall::Rclone => "rclone",
        ServiceCall::RemoteAccess => "remote_access",
        ServiceCall::Connect => "connect",
        ServiceCall::Online => "online",
        ServiceCall::SystemTime => "system_time",
        ServiceCall::InstalledUnraidPlugins => "installed_unraid_plugins",
        ServiceCall::IsSsoEnabled => "is_sso_enabled",
        ServiceCall::PublicOidcProviders => "public_oidc_providers",
        ServiceCall::OidcProviders => "oidc_providers",
        ServiceCall::OidcConfiguration => "oidc_configuration",
        ServiceCall::ApiKeys => "api_keys",
        ServiceCall::ApiKeyPossibleRoles => "api_key_possible_roles",
        ServiceCall::ApiKeyPossiblePermissions => "api_key_possible_permissions",
        ServiceCall::GetAvailableAuthActions => "get_available_auth_actions",
        ServiceCall::GetApiKeyCreationFormSchema => "get_api_key_creation_form_schema",
        ServiceCall::Config => "config",
        ServiceCall::Settings => "settings",
        ServiceCall::Display => "display",
        ServiceCall::Customization => "customization",
        ServiceCall::InternalBootContext => "internal_boot_context",
        ServiceCall::Me => "me",
        ServiceCall::Owner => "owner",
        ServiceCall::Servers => "servers",
        ServiceCall::IsFreshInstall => "is_fresh_install",
        ServiceCall::PublicTheme => "public_theme",
        ServiceCall::NetworkInterfaces => "network_interfaces",
        ServiceCall::TimeZoneOptions => "time_zone_options",
        ServiceCall::AssignableDisks => "assignable_disks",
        ServiceCall::PluginInstallOperations => "plugin_install_operations",
        ServiceCall::Cloud => "cloud",
        ServiceCall::ApiKey(..) => "api_key",
        ServiceCall::Disk(..) => "disk",
        ServiceCall::OidcProvider(..) => "oidc_provider",
        ServiceCall::UpsDeviceById(..) => "ups_device_by_id",
        ServiceCall::PluginInstallOperation(..) => "plugin_install_operation",
        ServiceCall::ValidateOidcSession(..) => "validate_oidc_session",
        ServiceCall::GetPermissionsForRoles(..) => "get_permissions_for_roles",
        ServiceCall::RecalculateOverview => "recalculate_overview",
        ServiceCall::DeleteArchivedNotifications => "delete_archived_notifications",
        ServiceCall::ArchiveNotification(..) => "archive_notification",
        ServiceCall::CreateNotification { .. } => "create_notification",
        ServiceCall::VmStart(..) => "vm_start",
        ServiceCall::VmStop(..) => "vm_stop",
        ServiceCall::VmPause(..) => "vm_pause",
        ServiceCall::VmResume(..) => "vm_resume",
        ServiceCall::VmForceStop(..) => "vm_force_stop",
        ServiceCall::VmReboot(..) => "vm_reboot",
        ServiceCall::VmReset(..) => "vm_reset",
        ServiceCall::DockerStart(..) => "docker_start",
        ServiceCall::DockerStop(..) => "docker_stop",
        ServiceCall::DockerPause(..) => "docker_pause",
        ServiceCall::DockerUnpause(..) => "docker_unpause",
        ServiceCall::DockerUpdateContainer(..) => "docker_update_container",
        ServiceCall::DockerRemoveContainer { .. } => "docker_remove_container",
        ServiceCall::DockerUpdateContainers(..) => "docker_update_containers",
        ServiceCall::DockerUpdateAllContainers => "docker_update_all_containers",
        ServiceCall::ArraySetState(..) => "array_set_state",
        ServiceCall::ArrayAddDiskToArray { .. } => "array_add_disk_to_array",
        ServiceCall::ArrayRemoveDiskFromArray { .. } => "array_remove_disk_from_array",
        ServiceCall::ArrayMountArrayDisk(..) => "array_mount_array_disk",
        ServiceCall::ArrayUnmountArrayDisk(..) => "array_unmount_array_disk",
        ServiceCall::ArrayClearArrayDiskStatistics(..) => "array_clear_array_disk_statistics",
        ServiceCall::ParityCheckStart(..) => "parity_check_start",
        ServiceCall::ParityCheckPause => "parity_check_pause",
        ServiceCall::ParityCheckResume => "parity_check_resume",
        ServiceCall::ParityCheckCancel => "parity_check_cancel",
    }
}

/// The position of a call's action in the action catalogue.
pub open spec fn spec_call_index(c: ServiceCall) -> int {
    match c {
        ServiceCall::Array => 0,
        ServiceCall::Disks => 1,
        ServiceCall::Docker => 2,
        ServiceCall::DockerLogs { .. } => 3,
        ServiceCall::Vms => 4,
        ServiceCall::Server => 5,
        ServiceCall::Info => 6,
        ServiceCall::Shares => 7,
        ServiceCall::Notifications => 8,
        ServiceCall::LogFiles => 9,
        ServiceCall::LogFile { .. } => 10,
        ServiceCall::Services => 11,
        ServiceCall::Network => 12,
        ServiceCall::Ups => 13,
        ServiceCall::UpsConfig => 14,
        ServiceCall::Metrics => 15,
        ServiceCall::Plugins => 16,
        ServiceCall::ParityHistory => 17,
        ServiceCall::Vars => 18,
        ServiceCall::Registration => 19,
        ServiceCall::Flash => 20,
        ServiceCall::Rclone => 21,
        ServiceCall::RemoteAccess => 22,
        ServiceCall::Connect => 23,
        ServiceCall::Online => 24,
        ServiceCall::SystemTime => 25,
        ServiceCall::InstalledUnraidPlugins => 26,
        ServiceCall::IsSsoEnabled => 27,
        ServiceCall::PublicOidcProviders => 28,
        ServiceCall::OidcProviders => 29,
        ServiceCall::OidcConfiguration => 30,
        ServiceCall::ApiKeys => 31,
        ServiceCall::ApiKeyPossibleRoles => 32,
        ServiceCall::ApiKeyPossiblePermissions => 33,
        ServiceCall::GetAvailableAuthActions => 34,
        ServiceCall::GetApiKeyCreationFormSchema => 35,
        ServiceCall::Config => 36,
        ServiceCall::Settings => 37,
        ServiceCall::Display => 38,
        ServiceCall::Customization => 39,
        ServiceCall::InternalBootContext => 40,
        ServiceCall::Me => 41,
        ServiceCall::Owner => 42,
        ServiceCall::Servers => 43,
        ServiceCall::IsFreshInstall => 44,
        ServiceCall::PublicTheme => 45,
        ServiceCall::NetworkInterfaces => 46,
        ServiceCall::TimeZoneOptions => 47,
        ServiceCall::AssignableDisks => 48,
        ServiceCall::PluginInstallOperations => 49,
        ServiceCall::Cloud => 50,
        ServiceCall::ApiKey(..) => 51,
        ServiceCall::Disk(..) => 52,
        ServiceCall::OidcProvider(..) => 53,
        ServiceCall::UpsDeviceById(..) => 54,
        ServiceCall::PluginInstallOperation(..) => 55,
        ServiceCall::ValidateOidcSession(..) => 56,
        ServiceCall::GetPermissionsForRoles(..) => 57,
        ServiceCall::RecalculateOverview => 58,
        ServiceCall::DeleteArchivedNotifications => 59,
        ServiceCall::ArchiveNotification(..) => 60,
        ServiceCall::CreateNotification { .. } => 61,
        ServiceCall::VmStart(..) => 62,
        ServiceCall::VmStop(..) => 63,
        ServiceCall::VmPause(..) => 64,
        ServiceCall::VmResume(..) => 65,
        ServiceCall::VmForceStop(..) => 66,
        ServiceCall::VmReboot(..) => 67,
        ServiceCall::VmReset(..) => 68,
        ServiceCall::DockerStart(..) => 69,
        ServiceCall::DockerStop(..) => 70,
        ServiceCall::DockerPause(..) => 71,
        ServiceCall::DockerUnpause(..) => 72,
        ServiceCall::DockerUpdateContainer(..) => 73,
        ServiceCall::DockerRemoveContainer { .. } => 74,
        ServiceCall::DockerUpdateContainers(..) => 75,
        ServiceCall::DockerUpdateAllContainers => 76,
        ServiceCall::ArraySetState(..) => 77,
        ServiceCall::ArrayAddDiskToArray { .. } => 78,
        ServiceCall::ArrayRemoveDiskFromArray { .. } => 79,
        ServiceCall::ArrayMountArrayDisk(..) => 80,
        ServiceCall::ArrayUnmountArrayDisk(..) => 81,
        ServiceCall::ArrayClearArrayDiskStatistics(..) => 82,
        ServiceCall::ParityCheckStart(..) => 83,
        ServiceCall::ParityCheckPause => 84,
        ServiceCall::ParityCheckResume => 85,
        ServiceCall::ParityCheckCancel => 86,
    }
}

impl ServiceCall {
    /// The action name of this call.
    pub fn name(&self) -> (r: &'static str)
        ensures
            r == spec_call_name(*self),
    {
        match self {
            ServiceCall::Array => "array",
            ServiceCall::Disks => "disks",
            ServiceCall::Docker => "docker",
            ServiceCall::DockerLogs { .. } => "docker_logs",
            ServiceCall::Vms => "vms",
            ServiceCall::Server => "server",
            ServiceCall::Info => "info",
            ServiceCall::Shares => "shares",
            ServiceCall::Notifications => "notifications",
            ServiceCall::LogFiles => "log_files",
            ServiceCall::LogFile { .. } => "log_file",
            ServiceCall::Services => "services",
            ServiceCall::Network => "network",
            ServiceCall::Ups => "ups",
            ServiceCall::UpsConfig => "ups_config",
            ServiceCall::Metrics => "metrics",
            ServiceCall::Plugins => "plugins",
            ServiceCall::ParityHistory => "parity_history",
            ServiceCall::Vars => "vars",
            ServiceCall::Registration => "registration",
            ServiceCall::Flash => "flash",
            ServiceCall::Rclone => "rclone",
            ServiceCall::RemoteAccess => "remote_access",
            ServiceCall::Connect => "connect",
            ServiceCall::Online => "online",
            ServiceCall::SystemTime => "system_time",
            ServiceCall::InstalledUnraidPlugins => "installed_unraid_plugins",
            ServiceCall::IsSsoEnabled => "is_sso_enabled",
            ServiceCall::PublicOidcProviders => "public_oidc_providers",
            ServiceCall::OidcProviders => "oidc_providers",
            ServiceCall::OidcConfiguration => "oidc_configuration",
            ServiceCall::ApiKeys => "api_keys",
            ServiceCall::ApiKeyPossibleRoles => "api_key_possible_roles",
            ServiceCall::ApiKeyPossiblePermissions => "api_key_possible_permissions",
            ServiceCall::GetAvailableAuthActions => "get_available_auth_actions",
            ServiceCall::GetApiKeyCreationFormSchema => "get_api_key_creation_form_schema",
            ServiceCall::Config => "config",
            ServiceCall::Settings => "settings",
            ServiceCall::Display => "display",
            ServiceCall::Customization => "customization",
            ServiceCall::InternalBootContext => "internal_boot_context",
            ServiceCall::Me => "me",
            ServiceCall::Owner => "owner",
            ServiceCall::Servers => "servers",
            ServiceCall::IsFreshInstall => "is_fresh_install",
            ServiceCall::PublicTheme => "public_theme",
            ServiceCall::NetworkInterfaces => "network_interfaces",
            ServiceCall::TimeZoneOptions => "time_zone_options",
            ServiceCall::AssignableDisks => "assignable_disks",
            ServiceCall::PluginInstallOperations => "plugin_install_operations",
            ServiceCall::Cloud => "cloud",
            ServiceCall::ApiKey(..) => "api_key",
            ServiceCall::Disk(..) => "disk",
            ServiceCall::OidcProvider(..) => "oidc_provider",
            ServiceCall::UpsDeviceById(..) => "ups_device_by_id",
            ServiceCall::PluginInstallOperation(..) => "plugin_install_operation",
            ServiceCall::ValidateOidcSession(..) => "validate_oidc_session",
            ServiceCall::GetPermissionsForRoles(..) => "get_permissions_for_roles",
            ServiceCall::RecalculateOverview => "recalculate_overview",
            ServiceCall::DeleteArchivedNotifications => "delete_archived_notifications",
            ServiceCall::ArchiveNotification(..) => "archive_notification",
            ServiceCall::CreateNotification { .. } => "create_notification",
            ServiceCall::VmStart(..) => "vm_start",
            ServiceCall::VmStop(..) => "vm_stop",
            ServiceCall::VmPause(..) => "vm_pause",
            ServiceCall::VmResume(..) => "vm_resume",
            ServiceCall::VmForceStop(..) => "vm_force_stop",
            ServiceCall::VmReboot(..) => "vm_reboot",
            ServiceCall::VmReset(..) => "vm_reset",
            ServiceCall::DockerStart(..) => "docker_start",
            ServiceCall::DockerStop(..) => "docker_stop",
            ServiceCall::DockerPause(..) => "docker_pause",
            ServiceCall::DockerUnpause(..) => "docker_unpause",
            ServiceCall::DockerUpdateContainer(..) => "docker_update_container",
            ServiceCall::DockerRemoveContainer { .. } => "docker_remove_container",
            ServiceCall::DockerUpdateContainers(..) => "docker_update_containers",
            ServiceCall::DockerUpdateAllContainers => "docker_update_all_containers",
            ServiceCall::ArraySetState(..) => "array_set_state",
            ServiceCall::ArrayAddDiskToArray { .. } => "array_add_disk_to_array",
            ServiceCall::ArrayRemoveDiskFromArray { .. } => "array_remove_disk_from_array",
            ServiceCall::ArrayMountArrayDisk(..) => "array_mount_array_disk",
            ServiceCall::ArrayUnmountArrayDisk(..) => "array_unmount_array_disk",
            ServiceCall::ArrayClearArrayDiskStatistics(..) => "array_clear_array_disk_statistics",
            ServiceCall::ParityCheckStart(..) => "parity_check_start",
            ServiceCall::ParityCheckPause => "parity_check_pause",
            ServiceCall::ParityCheckResume => "parity_check_resume",
            ServiceCall::ParityCheckCancel => "parity_check_cancel",
        }
    }
}

/// Every service call is a catalogued action of the same name, and that action
/// is a data (read) action or a write action, never `status` or `help`.
pub proof fn lemma_service_call_catalogued(c: ServiceCall)
    ensures
        0 <= spec_call_index(c) < spec_actions().len(),
        spec_actions()[spec_call_index(c)].name == spec_call_name(c),
        is_data_action(spec_actions()[spec_call_index(c)]) || is_write_action(spec_actions()[spec_call_index(c)]),
{
    lemma_action_names_distinct();
    let s = spec_actions();
    let i = spec_call_index(c);
    assert(s[i].name@ != s[s.len() - 2].name@);
    assert(s[i].name@ != s[s.len() - 1].name@);
}

/// Whether a command is served by the service (everything but `doctor` and `setup`).
pub open spec fn is_service_command(cmd: CliCommand) -> bool {
    !(cmd is Doctor || cmd is Setup)
}

/// The service call a CLI command performs.
pub open spec fn spec_cli_call(cmd: CliCommand) -> ServiceCall
    recommends
        is_service_command(cmd),
{
    match cmd {
        CliCommand::Array => ServiceCall::Array,
        CliCommand::Disks => ServiceCall::Disks,
        CliCommand::Docker => ServiceCall::Docker,
        CliCommand::DockerLogs { id, tail } => ServiceCall::DockerLogs { id, tail },
        CliCommand::Vms => ServiceCall::Vms,
        CliCommand::Server => ServiceCall::Server,
        CliCommand::Info => ServiceCall::Info,
        CliCommand::Shares => ServiceCall::Shares,
        CliCommand::Notifications => ServiceCall::Notifications,
        CliCommand::LogFiles => ServiceCall::LogFiles,
        CliCommand::LogFile { path, lines, start_line } => ServiceCall::LogFile { path, lines, start_line },
        CliCommand::Services => ServiceCall::Services,
        CliCommand::Network => ServiceCall::Network,
        CliCommand::Ups => ServiceCall::Ups,
        CliCommand::UpsConfig => ServiceCall::UpsConfig,
        CliCommand::Metrics => ServiceCall::Metrics,
        CliCommand::Plugins => ServiceCall::Plugins,
        CliCommand::ParityHistory => ServiceCall::ParityHistory,
        CliCommand::Vars => ServiceCall::Vars,
        CliCommand::Registration => ServiceCall::Registration,
        CliCommand::Flash => ServiceCall::Flash,
        CliCommand::Rclone => ServiceCall::Rclone,
        CliCommand::RemoteAccess => ServiceCall::RemoteAccess,
        CliCommand::Connect => ServiceCall::Connect,
        CliCommand::Online => ServiceCall::Online,
        CliCommand::SystemTime => ServiceCall::SystemTime,
        CliCommand::InstalledUnraidPlugins => ServiceCall::InstalledUnraidPlugins,
        CliCommand::IsSsoEnabled => ServiceCall::IsSsoEnabled,
        CliCommand::PublicOidcProviders => ServiceCall::PublicOidcProviders,
        CliCommand::OidcProviders => ServiceCall::OidcProviders,
        CliCommand::OidcConfiguration => ServiceCall::OidcConfiguration,
        CliCommand::ApiKeys => ServiceCall::ApiKeys,
        CliCommand::ApiKeyPossibleRoles => ServiceCall::ApiKeyPossibleRoles,
        CliCommand::ApiKeyPossiblePermissions => ServiceCall::ApiKeyPossiblePermissions,
        CliCommand::GetAvailableAuthActions => ServiceCall::GetAvailableAuthActions,
        CliCommand::GetApiKeyCreationFormSchema => ServiceCall::GetApiKeyCreationFormSchema,
        CliCommand::Config => ServiceCall::Config,
        CliCommand::Settings => ServiceCall::Settings,
        CliCommand::Display => ServiceCall::Display,
        CliCommand::Customization => ServiceCall::Customization,
        CliCommand::InternalBootContext => ServiceCall::InternalBootContext,
        CliCommand::Me => ServiceCall::Me,
        CliCommand::Owner => ServiceCall::Owner,
        CliCommand::Servers => ServiceCall::Servers,
        CliCommand::IsFreshInstall => ServiceCall::IsFreshInstall,
        CliCommand::PublicTheme => ServiceCall::PublicTheme,
        CliCommand::NetworkInterfaces => ServiceCall::NetworkInterfaces,
        CliCommand::TimeZoneOptions => ServiceCall::TimeZoneOptions,
        CliCommand::AssignableDisks => ServiceCall::AssignableDisks,
        CliCommand::PluginInstallOperations => ServiceCall::PluginInstallOperations,
        CliCommand::Cloud => ServiceCall::Cloud,
        CliCommand::ApiKey(id) => ServiceCall::ApiKey(id),
        CliCommand::Disk(id) => ServiceCall::Disk(id),
        CliCommand::OidcProvider(id) => ServiceCall::OidcProvider(id),
        CliCommand::UpsDeviceById(id) => ServiceCall::UpsDeviceById(id),
        CliCommand::PluginInstallOperation(id) => ServiceCall::PluginInstallOperation(id),
        CliCommand::ValidateOidcSession(id) => ServiceCall::ValidateOidcSession(id),
        CliCommand::GetPermissionsForRoles(v) => ServiceCall::GetPermissionsForRoles(v),
        CliCommand::RecalculateOverview => ServiceCall::RecalculateOverview,
        CliCommand::DeleteArchivedNotifications => ServiceCall::DeleteArchivedNotifications,
        CliCommand::ArchiveNotification(id) => ServiceCall::ArchiveNotification(id),
        CliCommand::CreateNotification { title, subject, description, importance, link } => ServiceCall::CreateNotification { title, subject, description, importance, link },
        CliCommand::VmStart(id) => ServiceCall::VmStart(id),
        CliCommand::VmStop(id) => ServiceCall::VmStop(id),
        CliCommand::VmPause(id) => ServiceCall::VmPause(id),
        CliCommand::VmResume(id) => ServiceCall::VmResume(id),
        CliCommand::VmForceStop(id) => ServiceCall::VmForceStop(id),
        CliCommand::VmReboot(id) => ServiceCall::VmReboot(id),
        CliCommand::VmReset(id) => ServiceCall::VmReset(id),
        CliCommand::DockerStart(id) => ServiceCall::DockerStart(id),
        CliCommand::DockerStop(id) => ServiceCall::DockerStop(id),
        CliCommand::DockerPause(id) => ServiceCall::DockerPause(id),
        CliCommand::DockerUnpause(id) => ServiceCall::DockerUnpause(id),
        CliCommand::DockerUpdateContainer(id) => ServiceCall::DockerUpdateContainer(id),
        CliCommand::DockerRemoveContainer(id) => ServiceCall::DockerRemoveContainer { id, with_image: None },
        CliCommand::DockerUpdateContainers(v) => ServiceCall::DockerUpdateContainers(v),
        CliCommand::DockerUpdateAllContainers => ServiceCall::DockerUpdateAllContainers,
        CliCommand::ArraySetState(id) => ServiceCall::ArraySetState(id),
        CliCommand::ArrayAddDiskToArray(id) => ServiceCall::ArrayAddDiskToArray { id, slot: None },
        CliCommand::ArrayRemoveDiskFromArray(id) => ServiceCall::ArrayRemoveDiskFromArray { id, slot: None },
        CliCommand::ArrayMountArrayDisk(id) => ServiceCall::ArrayMountArrayDisk(id),
        CliCommand::ArrayUnmountArrayDisk(id) => ServiceCall::ArrayUnmountArrayDisk(id),
        CliCommand::ArrayClearArrayDiskStatistics(id) => ServiceCall::ArrayClearArrayDiskStatistics(id),
        CliCommand::ParityCheckStart(b) => ServiceCall::ParityCheckStart(b),
        CliCommand::ParityCheckPause => ServiceCall::ParityCheckPause,
        CliCommand::ParityCheckResume => ServiceCall::ParityCheckResume,
        CliCommand::ParityCheckCancel => ServiceCall::ParityCheckCancel,
        _ => ServiceCall::Array,
    }
}

impl CliCommand {
    /// The service call this command performs. `doctor` and `setup` are handled
    /// by the front-end before any service exists, so they have none.
    pub fn into_service_call(self) -> (r: ServiceCall)
        requires
            is_service_command(self),
        ensures
            r == spec_cli_call(self),
    {
        match self {
            CliCommand::Array => ServiceCall::Array,
            CliCommand::Disks => ServiceCall::Disks,
            CliCommand::Docker => ServiceCall::Docker,
            CliCommand::DockerLogs { id, tail } => ServiceCall::DockerLogs { id, tail },
            CliCommand::Vms => ServiceCall::Vms,
            CliCommand::Server => ServiceCall::Server,
            CliCommand::Info => ServiceCall::Info,
            CliCommand::Shares => ServiceCall::Shares,
            CliCommand::Notifications => ServiceCall::Notifications,
            CliCommand::LogFiles => ServiceCall::LogFiles,
            CliCommand::LogFile { path, lines, start_line } => ServiceCall::LogFile { path, lines, start_line },
            CliCommand::Services => ServiceCall::Services,
            CliCommand::Network => ServiceCall::Network,
            CliCommand::Ups => ServiceCall::Ups,
            CliCommand::UpsConfig => ServiceCall::UpsConfig,
            CliCommand::Metrics => ServiceCall::Metrics,
            CliCommand::Plugins => ServiceCall::Plugins,
            CliCommand::ParityHistory => ServiceCall::ParityHistory,
            CliCommand::Vars => ServiceCall::Vars,
            CliCommand::Registration => ServiceCall::Registration,
            CliCommand::Flash => ServiceCall::Flash,
            CliCommand::Rclone => ServiceCall::Rclone,
            CliCommand::RemoteAccess => ServiceCall::RemoteAccess,
            CliCommand::Connect => ServiceCall::Connect,
            CliCommand::Online => ServiceCall::Online,
            CliCommand::SystemTime => ServiceCall::SystemTime,
            CliCommand::InstalledUnraidPlugins => ServiceCall::InstalledUnraidPlugins,
            CliCommand::IsSsoEnabled => ServiceCall::IsSsoEnabled,
            CliCommand::PublicOidcProviders => ServiceCall::PublicOidcProviders,
            CliCommand::OidcProviders => ServiceCall::OidcProviders,
            CliCommand::OidcConfiguration => ServiceCall::OidcConfiguration,
            CliCommand::ApiKeys => ServiceCall::ApiKeys,
            CliCommand::ApiKeyPossibleRoles => ServiceCall::ApiKeyPossibleRoles,
            CliCommand::ApiKeyPossiblePermissions => ServiceCall::ApiKeyPossiblePermissions,
            CliCommand::GetAvailableAuthActions => ServiceCall::GetAvailableAuthActions,
            CliCommand::GetApiKeyCreationFormSchema => ServiceCall::GetApiKeyCreationFormSchema,
            CliCommand::Config => ServiceCall::Config,
            CliCommand::Settings => ServiceCall::Settings,
            CliCommand::Display => ServiceCall::Display,
            CliCommand::Customization => ServiceCall::Customization,
            CliCommand::InternalBootContext => ServiceCall::InternalBootContext,
            CliCommand::Me => ServiceCall::Me,
            CliCommand::Owner => ServiceCall::Owner,
            CliCommand::Servers => ServiceCall::Servers,
            CliCommand::IsFreshInstall => ServiceCall::IsFreshInstall,
            CliCommand::PublicTheme => ServiceCall::PublicTheme,
            CliCommand::NetworkInterfaces => ServiceCall::NetworkInterfaces,
            CliCommand::TimeZoneOptions => ServiceCall::TimeZoneOptions,
            CliCommand::AssignableDisks => ServiceCall::AssignableDisks,
            CliCommand::PluginInstallOperations => ServiceCall::PluginInstallOperations,
            CliCommand::Cloud => ServiceCall::Cloud,
            CliCommand::ApiKey(id) => ServiceCall::ApiKey(id),
            CliCommand::Disk(id) => ServiceCall::Disk(id),
            CliCommand::OidcProvider(id) => ServiceCall::OidcProvider(id),
            CliCommand::UpsDeviceById(id) => ServiceCall::UpsDeviceById(id),
            CliCommand::PluginInstallOperation(id) => ServiceCall::PluginInstallOperation(id),
            CliCommand::ValidateOidcSession(id) => ServiceCall::ValidateOidcSession(id),
            CliCommand::GetPermissionsForRoles(v) => ServiceCall::GetPermissionsForRoles(v),
            CliCommand::RecalculateOverview => ServiceCall::RecalculateOverview,
            CliCommand::DeleteArchivedNotifications => ServiceCall::DeleteArchivedNotifications,
            CliCommand::ArchiveNotification(id) => ServiceCall::ArchiveNotification(id),
            CliCommand::CreateNotification { title, subject, description, importance, link } => ServiceCall::CreateNotification { title, subject, description, importance, link },
            CliCommand::VmStart(id) => ServiceCall::VmStart(id),
            CliCommand::VmStop(id) => ServiceCall::VmStop(id),
            CliCommand::VmPause(id) => ServiceCall::VmPause(id),
            CliCommand::VmResume(id) => ServiceCall::VmResume(id),
            CliCommand::VmForceStop(id) => ServiceCall::VmForceStop(id),
            CliCommand::VmReboot(id) => ServiceCall::VmReboot(id),
            CliCommand::VmReset(id) => ServiceCall::VmReset(id),
            CliCommand::DockerStart(id) => ServiceCall::DockerStart(id),
            CliCommand::DockerStop(id) => ServiceCall::DockerStop(id),
            CliCommand::DockerPause(id) => ServiceCall::DockerPause(id),
            CliCommand::DockerUnpause(id) => ServiceCall::DockerUnpause(id),
            CliCommand::DockerUpdateContainer(id) => ServiceCall::DockerUpdateContainer(id),
            CliCommand::DockerRemoveContainer(id) => ServiceCall::DockerRemoveContainer { id, with_image: None },
            CliCommand::DockerUpdateContainers(v) => ServiceCall::DockerUpdateContainers(v),
            CliCommand::DockerUpdateAllContainers => ServiceCall::DockerUpdateAllContainers,
            CliCommand::ArraySetState(id) => ServiceCall::ArraySetState(id),
            CliCommand::ArrayAddDiskToArray(id) => ServiceCall::ArrayAddDiskToArray { id, slot: None },
            CliCommand::ArrayRemoveDiskFromArray(id) => ServiceCall::ArrayRemoveDiskFromArray { id, slot: None },
            CliCommand::ArrayMountArrayDisk(id) => ServiceCall::ArrayMountArrayDisk(id),
            CliCommand::ArrayUnmountArrayDisk(id) => ServiceCall::ArrayUnmountArrayDisk(id),
            CliCommand::ArrayClearArrayDiskStatistics(id) => ServiceCall::ArrayClearArrayDiskStatistics(id),
            CliCommand::ParityCheckStart(b) => ServiceCall::ParityCheckStart(b),
            CliCommand::ParityCheckPause => ServiceCall::ParityCheckPause,
            CliCommand::ParityCheckResume => ServiceCall::ParityCheckResume,
            CliCommand::ParityCheckCancel => ServiceCall::ParityCheckCancel,
            CliCommand::Doctor | CliCommand::Setup(_) => ServiceCall::Array,
        }
    }
}

/// A command word read as an action name: dashes become underscores.
pub open spec fn snake(w: Seq<char>) -> Seq<char> {
    w.map_values(|c: char| if c == '-' { '_' } else { c })
}

/// The short single-word aliases and the action each names.
pub open spec fn single_word_alias(w: Seq<char>, n: Seq<char>) -> bool {
    (w == "installed-plugins"@ && n == "installed_unraid_plugins"@) || (w == "sso"@ && n == "is_sso_enabled"@) || (w == "oidc-config"@ && n == "oidc_configuration"@) || (w == "possible-roles"@ && n == "api_key_possible_roles"@) || (w == "possible-permissions"@ && n == "api_key_possible_permissions"@) || (w == "auth-actions"@ && n == "get_available_auth_actions"@) || (w == "api-key-form-schema"@ && n == "get_api_key_creation_form_schema"@) || (w == "boot-context"@ && n == "internal_boot_context"@) || (w == "fresh-install"@ && n == "is_fresh_install"@) || (w == "theme"@ && n == "public_theme"@) || (w == "nics"@ && n == "network_interfaces"@) || (w == "timezones"@ && n == "time_zone_options"@) || (w == "plugin-ops"@ && n == "plugin_install_operations"@)
}
/// The short aliases of the commands that take an identifier, and their actions.
pub open spec fn id_word_alias(w: Seq<char>, n: Seq<char>) -> bool {
    (w == "ups-device"@ && n == "ups_device_by_id"@) || (w == "plugin-op"@ && n == "plugin_install_operation"@)
}
/// The single text argument of a call that takes one (an identifier, a token,
/// or the array state).
pub open spec fn spec_call_argument(c: ServiceCall) -> Option<String> {
    match c {
        ServiceCall::ApiKey(a) => Some(a),
        ServiceCall::Disk(a) => Some(a),
        ServiceCall::OidcProvider(a) => Some(a),
        ServiceCall::UpsDeviceById(a) => Some(a),
        ServiceCall::PluginInstallOperation(a) => Some(a),
        ServiceCall::ValidateOidcSession(a) => Some(a),
        ServiceCall::ArchiveNotification(a) => Some(a),
        ServiceCall::VmStart(a) => Some(a),
        ServiceCall::VmStop(a) => Some(a),
        ServiceCall::VmPause(a) => Some(a),
        ServiceCall::VmResume(a) => Some(a),
        ServiceCall::VmForceStop(a) => Some(a),
        ServiceCall::VmReboot(a) => Some(a),
        ServiceCall::VmReset(a) => Some(a),
        ServiceCall::DockerStart(a) => Some(a),
        ServiceCall::DockerStop(a) => Some(a),
        ServiceCall::DockerPause(a) => Some(a),
        ServiceCall::DockerUnpause(a) => Some(a),
        ServiceCall::DockerUpdateContainer(a) => Some(a),
        ServiceCall::DockerRemoveContainer { id, .. } => Some(id),
        ServiceCall::ArraySetState(a) => Some(a),
        ServiceCall::ArrayAddDiskToArray { id, .. } => Some(id),
        ServiceCall::ArrayRemoveDiskFromArray { id, .. } => Some(id),
        ServiceCall::ArrayMountArrayDisk(a) => Some(a),
        ServiceCall::ArrayUnmountArrayDisk(a) => Some(a),
        ServiceCall::ArrayClearArrayDiskStatistics(a) => Some(a),
        _ => None,
    }
}

/// A single-word command performs the action its word names: the word with
/// dashes read as underscores (`parity-history` is `parity_history`), or, for a
/// short alias, the action the alias stands for.
pub proof fn lemma_single_word_commands_name_their_action(w: Seq<char>)
    ensures
        spec_single_word_command(w) matches Some(c) ==> (is_service_command(c) ==> (spec_call_name(
            spec_cli_call(c),
        )@ == snake(w) || single_word_alias(w, spec_call_name(spec_cli_call(c))@))),
{
    reveal_strlit("api-key-possible-permissions");
    reveal_strlit("api-key-possible-roles");
    reveal_strlit("api-keys");
    reveal_strlit("api_key_possible_permissions");
    reveal_strlit("api_key_possible_roles");
    reveal_strlit("api_keys");
    reveal_strlit("array");
    reveal_strlit("assignable-disks");
    reveal_strlit("assignable_disks");
    reveal_strlit("cloud");
    reveal_strlit("config");
    reveal_strlit("connect");
    reveal_strlit("customization");
    reveal_strlit("delete-archived-notifications");
    reveal_strlit("delete_archived_notifications");
    reveal_strlit("disks");
    reveal_strlit("display");
    reveal_strlit("docker");
    reveal_strlit("docker-update-all-containers");
    reveal_strlit("docker_update_all_containers");
    reveal_strlit("flash");
    reveal_strlit("get-api-key-creation-form-schema");
    reveal_strlit("get-available-auth-actions");
    reveal_strlit("get_api_key_creation_form_schema");
    reveal_strlit("get_available_auth_actions");
    reveal_strlit("info");
    reveal_strlit("installed-unraid-plugins");
    reveal_strlit("installed_unraid_plugins");
    reveal_strlit("internal-boot-context");
    reveal_strlit("internal_boot_context");
    reveal_strlit("is-fresh-install");
    reveal_strlit("is-sso-enabled");
    reveal_strlit("is_fresh_install");
    reveal_strlit("is_sso_enabled");
    reveal_strlit("log-files");
    reveal_strlit("log_files");
    reveal_strlit("me");
    reveal_strlit("metrics");
    reveal_strlit("network");
    reveal_strlit("network-interfaces");
    reveal_strlit("network_interfaces");
    reveal_strlit("notifications");
    reveal_strlit("oidc-configuration");
    reveal_strlit("oidc-providers");
    reveal_strlit("oidc_configuration");
    reveal_strlit("oidc_providers");
    reveal_strlit("online");
    reveal_strlit("owner");
    reveal_strlit("parity-check-cancel");
    reveal_strlit("parity-check-pause");
    reveal_strlit("parity-check-resume");
    reveal_strlit("parity-history");
    reveal_strlit("parity_check_cancel");
    reveal_strlit("parity_check_pause");
    reveal_strlit("parity_check_resume");
    reveal_strlit("parity_history");
    reveal_strlit("plugin-install-operations");
    reveal_strlit("plugin_install_operations");
    reveal_strlit("plugins");
    reveal_strlit("public-oidc-providers");
    reveal_strlit("public-theme");
    reveal_strlit("public_oidc_providers");
    reveal_strlit("public_theme");
    reveal_strlit("rclone");
    reveal_strlit("recalculate-overview");
    reveal_strlit("recalculate_overview");
    reveal_strlit("registration");
    reveal_strlit("remote-access");
    reveal_strlit("remote_access");
    reveal_strlit("server");
    reveal_strlit("servers");
    reveal_strlit("services");
    reveal_strlit("settings");
    reveal_strlit("shares");
    reveal_strlit("system-time");
    reveal_strlit("system_time");
    reveal_strlit("time-zone-options");
    reveal_strlit("time_zone_options");
    reveal_strlit("ups");
    reveal_strlit("ups-config");
    reveal_strlit("ups_config");
    reveal_strlit("vars");
    reveal_strlit("vms");
    assert(snake("array"@) =~= "array"@);
    assert(snake("disks"@) =~= "disks"@);
    assert(snake("docker"@) =~= "docker"@);
    assert(snake("vms"@) =~= "vms"@);
    assert(snake("server"@) =~= "server"@);
    assert(snake("info"@) =~= "info"@);
    assert(snake("shares"@) =~= "shares"@);
    assert(snake("notifications"@) =~= "notifications"@);
    assert(snake("log-files"@) =~= "log_files"@);
    assert(snake("services"@) =~= "services"@);
    assert(snake("network"@) =~= "network"@);
    assert(snake("ups"@) =~= "ups"@);
    assert(snake("ups-config"@) =~= "ups_config"@);
    assert(snake("metrics"@) =~= "metrics"@);
    assert(snake("plugins"@) =~= "plugins"@);
    assert(snake("parity-history"@) =~= "parity_history"@);
    assert(snake("vars"@) =~= "vars"@);
    assert(snake("registration"@) =~= "registration"@);
    assert(snake("flash"@) =~= "flash"@);
    assert(snake("rclone"@) =~= "rclone"@);
    assert(snake("remote-access"@) =~= "remote_access"@);
    assert(snake("connect"@) =~= "connect"@);
    assert(snake("online"@) =~= "online"@);
    assert(snake("system-time"@) =~= "system_time"@);
    assert(snake("installed-unraid-plugins"@) =~= "installed_unraid_plugins"@);
    assert(snake("is-sso-enabled"@) =~= "is_sso_enabled"@);
    assert(snake("public-oidc-providers"@) =~= "public_oidc_providers"@);
    assert(snake("oidc-providers"@) =~= "oidc_providers"@);
    assert(snake("oidc-configuration"@) =~= "oidc_configuration"@);
    assert(snake("api-keys"@) =~= "api_keys"@);
    assert(snake("api-key-possible-roles"@) =~= "api_key_possible_roles"@);
    assert(snake("api-key-possible-permissions"@) =~= "api_key_possible_permissions"@);
    assert(snake("get-available-auth-actions"@) =~= "get_available_auth_actions"@);
    assert(snake("get-api-key-creation-form-schema"@) =~= "get_api_key_creation_form_schema"@);
    assert(snake("config"@) =~= "config"@);
    assert(snake("settings"@) =~= "settings"@);
    assert(snake("display"@) =~= "display"@);
    assert(snake("customization"@) =~= "customization"@);
    assert(snake("internal-boot-context"@) =~= "internal_boot_context"@);
    assert(snake("me"@) =~= "me"@);
    assert(snake("owner"@) =~= "owner"@);
    assert(snake("servers"@) =~= "servers"@);
    assert(snake("is-fresh-install"@) =~= "is_fresh_install"@);
    assert(snake("public-theme"@) =~= "public_theme"@);
    assert(snake("network-interfaces"@) =~= "network_interfaces"@);
    assert(snake("time-zone-options"@) =~= "time_zone_options"@);
    assert(snake("assignable-disks"@) =~= "assignable_disks"@);
    assert(snake("plugin-install-operations"@) =~= "plugin_install_operations"@);
    assert(snake("cloud"@) =~= "cloud"@);
    assert(snake("recalculate-overview"@) =~= "recalculate_overview"@);
    assert(snake("delete-archived-notifications"@) =~= "delete_archived_notifications"@);
    assert(snake("docker-update-all-containers"@) =~= "docker_update_all_containers"@);
    assert(snake("parity-check-pause"@) =~= "parity_check_pause"@);
    assert(snake("parity-check-resume"@) =~= "parity_check_resume"@);
    assert(snake("parity-check-cancel"@) =~= "parity_check_cancel"@);
}

/// A two-word command performs the action its words name, joined by an
/// underscore (`log files` is `log_files`).
pub proof fn lemma_two_word_commands_name_their_action(a: Seq<char>, b: Seq<char>)
    ensures
        spec_two_word_command(a, b) matches Some(c) ==> (is_service_command(c) ==> spec_call_name(
            spec_cli_call(c),
        )@ == a + "_"@ + b),
{
    reveal_strlit("access");
    reveal_strlit("config");
    reveal_strlit("files");
    reveal_strlit("history");
    reveal_strlit("log");
    reveal_strlit("log_files");
    reveal_strlit("parity");
    reveal_strlit("parity_history");
    reveal_strlit("remote");
    reveal_strlit("remote_access");
    reveal_strlit("system");
    reveal_strlit("system_time");
    reveal_strlit("time");
    reveal_strlit("ups");
    reveal_strlit("ups_config");
    reveal_strlit("_");
    assert("log"@ + "_"@ + "files"@ =~= "log_files"@);
    assert("ups"@ + "_"@ + "config"@ =~= "ups_config"@);
    assert("parity"@ + "_"@ + "history"@ =~= "parity_history"@);
    assert("remote"@ + "_"@ + "access"@ =~= "remote_access"@);
    assert("system"@ + "_"@ + "time"@ =~= "system_time"@);
}

/// A command that takes an identifier performs the action its word names (the
/// word with dashes read as underscores: `vm-stop` is `vm_stop`, never
/// `vm_force_stop`; or the action of a short alias), and hands the identifier
/// to the call unchanged.
pub proof fn lemma_id_commands_name_their_action(w: Seq<char>, id: String)
    ensures
        spec_id_command(w, id) matches Some(c) ==> {
            &&& spec_call_name(spec_cli_call(c))@ == snake(w) || id_word_alias(w, spec_call_name(spec_cli_call(c))@)
            &&& spec_call_argument(spec_cli_call(c)) == Some(id)
        },
{
    reveal_strlit("api-key");
    reveal_strlit("api_key");
    reveal_strlit("archive-notification");
    reveal_strlit("archive_notification");
    reveal_strlit("array-add-disk-to-array");
    reveal_strlit("array-clear-array-disk-statistics");
    reveal_strlit("array-mount-array-disk");
    reveal_strlit("array-remove-disk-from-array");
    reveal_strlit("array-set-state");
    reveal_strlit("array-unmount-array-disk");
    reveal_strlit("array_add_disk_to_array");
    reveal_strlit("array_clear_array_disk_statistics");
    reveal_strlit("array_mount_array_disk");
    reveal_strlit("array_remove_disk_from_array");
    reveal_strlit("array_set_state");
    reveal_strlit("array_unmount_array_disk");
    reveal_strlit("disk");
    reveal_strlit("docker-pause");
    reveal_strlit("docker-remove-container");
    reveal_strlit("docker-start");
    reveal_strlit("docker-stop");
    reveal_strlit("docker-unpause");
    reveal_strlit("docker-update-container");
    reveal_strlit("docker_pause");
    reveal_strlit("docker_remove_container");
    reveal_strlit("docker_start");
    reveal_strlit("docker_stop");
    reveal_strlit("docker_unpause");
    reveal_strlit("docker_update_container");
    reveal_strlit("oidc-provider");
    reveal_strlit("oidc_provider");
    reveal_strlit("plugin-install-operation");
    reveal_strlit("plugin_install_operation");
    reveal_strlit("ups-device-by-id");
    reveal_strlit("ups_device_by_id");
    reveal_strlit("validate-oidc-session");
    reveal_strlit("validate_oidc_session");
    reveal_strlit("vm-force-stop");
    reveal_strlit("vm-pause");
    reveal_strlit("vm-reboot");
    reveal_strlit("vm-reset");
    reveal_strlit("vm-resume");
    reveal_strlit("vm-start");
    reveal_strlit("vm-stop");
    reveal_strlit("vm_force_stop");
    reveal_strlit("vm_pause");
    reveal_strlit("vm_reboot");
    reveal_strlit("vm_reset");
    reveal_strlit("vm_resume");
    reveal_strlit("vm_start");
    reveal_strlit("vm_stop");
    assert(snake("api-key"@) =~= "api_key"@);
    assert(snake("disk"@) =~= "disk"@);
    assert(snake("oidc-provider"@) =~= "oidc_provider"@);
    assert(snake("ups-device-by-id"@) =~= "ups_device_by_id"@);
    assert(snake("plugin-install-operation"@) =~= "plugin_install_operation"@);
    assert(snake("validate-oidc-session"@) =~= "validate_oidc_session"@);
    assert(snake("archive-notification"@) =~= "archive_notification"@);
    assert(snake("vm-start"@) =~= "vm_start"@);
    assert(snake("vm-stop"@) =~= "vm_stop"@);
    assert(snake("vm-pause"@) =~= "vm_pause"@);
    assert(snake("vm-resume"@) =~= "vm_resume"@);
    assert(snake("vm-force-stop"@) =~= "vm_force_stop"@);
    assert(snake("vm-reboot"@) =~= "vm_reboot"@);
    assert(snake("vm-reset"@) =~= "vm_reset"@);
    assert(snake("docker-start"@) =~= "docker_start"@);
    assert(snake("docker-stop"@) =~= "docker_stop"@);
    assert(snake("docker-pause"@) =~= "docker_pause"@);
    assert(snake("docker-unpause"@) =~= "docker_unpause"@);
    assert(snake("docker-update-container"@) =~= "docker_update_container"@);
    assert(snake("docker-remove-container"@) =~= "docker_remove_container"@);
    assert(snake("array-set-state"@) =~= "array_set_state"@);
    assert(snake("array-add-disk-to-array"@) =~= "array_add_disk_to_array"@);
    assert(snake("array-remove-disk-from-array"@) =~= "array_remove_disk_from_array"@);
    assert(snake("array-mount-array-disk"@) =~= "array_mount_array_disk"@);
    assert(snake("array-unmount-array-disk"@) =~= "array_unmount_array_disk"@);
    assert(snake("array-clear-array-disk-statistics"@) =~= "array_clear_array_disk_statistics"@);
}

/// The commands that take several words perform the action their command word
/// names (`docker logs` is `docker_logs`, `log-file` is `log_file`) and hand
/// every argument to the call unchanged; the commands that take only an
/// identifier leave the call's optional settings unset (no image removal, no
/// array slot).
pub proof fn lemma_commands_carry_their_arguments(
    id: String,
    tail: Option<i64>,
    path: String,
    lines: Option<i64>,
    start_line: Option<i64>,
    words: Vec<String>,
    title: String,
    subject: String,
    description: String,
    importance: String,
    link: Option<String>,
    correct: bool,
)
    ensures
        spec_call_name(spec_cli_call(CliCommand::DockerLogs { id, tail }))@ == "docker"@ + "_"@ + "logs"@,
        spec_cli_call(CliCommand::DockerLogs { id, tail }) matches ServiceCall::DockerLogs { id: i, tail: t } && i
            == id && t == tail,
        spec_call_name(spec_cli_call(CliCommand::LogFile { path, lines, start_line }))@ == snake("log-file"@),
        spec_cli_call(CliCommand::LogFile { path, lines, start_line }) matches ServiceCall::LogFile {
            path: p,
            lines: l,
            start_line: s,
        } && p == path && l == lines && s == start_line,
        spec_call_name(spec_cli_call(CliCommand::GetPermissionsForRoles(words)))@ == snake(
            "get-permissions-for-roles"@,
        ),
        spec_cli_call(CliCommand::GetPermissionsForRoles(words)) matches ServiceCall::GetPermissionsForRoles(v) && v
            == words,
        spec_call_name(spec_cli_call(CliCommand::DockerUpdateContainers(words)))@ == snake(
            "docker-update-containers"@,
        ),
        spec_cli_call(CliCommand::DockerUpdateContainers(words)) matches ServiceCall::DockerUpdateContainers(v) && v
            == words,
        spec_call_name(
            spec_cli_call(CliCommand::CreateNotification { title, subject, description, importance, link }),
        )@ == snake("create-notification"@),
        spec_cli_call(CliCommand::CreateNotification { title, subject, description, importance, link }) matches
            ServiceCall::CreateNotification { title: a, subject: b, description: c, importance: d, link: e } && a
            == title && b == subject && c == description && d == importance && e == link,
        spec_call_name(spec_cli_call(CliCommand::ParityCheckStart(correct)))@ == snake("parity-check-start"@),
        spec_cli_call(CliCommand::ParityCheckStart(correct)) matches ServiceCall::ParityCheckStart(b) && b == correct,
        spec_cli_call(CliCommand::DockerRemoveContainer(id)) matches ServiceCall::DockerRemoveContainer {
            id: _,
            with_image,
        } && with_image is None,
        spec_cli_call(CliCommand::ArrayAddDiskToArray(id)) matches ServiceCall::ArrayAddDiskToArray { id: _, slot }
            && slot is None,
        spec_cli_call(CliCommand::ArrayRemoveDiskFromArray(id)) matches ServiceCall::ArrayRemoveDiskFromArray {
            id: _,
            slot,
        } && slot is None,
{
    reveal_strlit("_");
    reveal_strlit("docker");
    reveal_strlit("logs");
    reveal_strlit("docker_logs");
    reveal_strlit("log-file");
    reveal_strlit("log_file");
    reveal_strlit("get-permissions-for-roles");
    reveal_strlit("get_permissions_for_roles");
    reveal_strlit("docker-update-containers");
    reveal_strlit("docker_update_containers");
    reveal_strlit("create-notification");
    reveal_strlit("create_notification");
    reveal_strlit("parity-check-start");
    reveal_strlit("parity_check_start");
    assert("docker"@ + "_"@ + "logs"@ =~= "docker_logs"@);
    assert(snake("log-file"@) =~= "log_file"@);
    assert(snake("get-permissions-for-roles"@) =~= "get_permissions_for_roles"@);
    assert(snake("docker-update-containers"@) =~= "docker_update_containers"@);
    assert(snake("create-notification"@) =~= "create_notification"@);
    assert(snake("parity-check-start"@) =~= "parity_check_start"@);
}

} // verus!
