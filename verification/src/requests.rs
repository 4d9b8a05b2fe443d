//! The upstream request each service call sends.
//!
//! Caller-controlled values always travel as GraphQL variables (or typed
//! operation variables); the query documents are fixed texts chosen by the kind
//! of call alone, so no argument is ever interpolated into a query.

use vstd::prelude::*;
use crate::schema::{
    ArrayDiskIdVars, ArrayDiskInput, ArrayDiskInputVars, ArrayStateInput, ArrayStateInputState,
    ArrayStateInputVars, CreateNotificationVars, DockerIdVars, DockerIdsVars, DockerRemoveVars,
    NotificationData, NotificationImportance, OperationIdVars, ParityCheckStartVars, PrefixedID, PrefixedIdVars,
    Role, RolesVars, StringIdVars, TokenVars, VmIdVars,
};
use crate::service::{ServiceCall, spec_call_name};
use crate::text::{concat2, join, str_eq, str_views};
use crate::upstream::UpstreamError;

verus! {

/// A GraphQL variable value.
#[derive(Clone, Debug, PartialEq, Eq)]
pub enum GqlVar {
    Str(String),
    Int(i64),
    Null,
}

/// A hand-written GraphQL query and its variables (`None`: variables are `null`).
#[derive(Debug)]
pub struct QueryRequest {
    pub query: &'static str,
    pub variables: Option<Vec<(&'static str, GqlVar)>>,
}

/// A typed (schema-checked) operation and its variables.
#[derive(Debug)]
pub enum TypedOperation {
    Online,
    SystemTime,
    InstalledUnraidPlugins,
    IsSsoEnabled,
    PublicOidcProviders,
    OidcProviders,
    OidcConfiguration,
    ApiKeys,
    ApiKeyPossibleRoles,
    ApiKeyPossiblePermissions,
    GetAvailableAuthActions,
    GetApiKeyCreationFormSchema,
    Config,
    Settings,
    Display,
    Customization,
    InternalBootContext,
    Me,
    Owner,
    Servers,
    IsFreshInstall,
    PublicTheme,
    NetworkInterfaces,
    TimeZoneOptions,
    AssignableDisks,
    PluginInstallOperations,
    Cloud,
    ApiKeyById(PrefixedIdVars),
    DiskById(PrefixedIdVars),
    OidcProviderById(PrefixedIdVars),
    UpsDeviceById(StringIdVars),
    PluginInstallOperationById(OperationIdVars),
    ValidateOidcSession(TokenVars),
    PermissionsForRoles(RolesVars),
    RecalculateOverview,
    DeleteArchivedNotifications,
    ArchiveNotification(PrefixedIdVars),
    CreateNotification(CreateNotificationVars),
    VmStart(VmIdVars),
    VmStop(VmIdVars),
    VmPause(VmIdVars),
    VmResume(VmIdVars),
    VmForceStop(VmIdVars),
    VmReboot(VmIdVars),
    VmReset(VmIdVars),
    DockerStart(DockerIdVars),
    DockerStop(DockerIdVars),
    DockerPause(DockerIdVars),
    DockerUnpause(DockerIdVars),
    DockerUpdateContainer(DockerIdVars),
    DockerRemoveContainer(DockerRemoveVars),
    DockerUpdateContainers(DockerIdsVars),
    DockerUpdateAllContainers,
    ArraySetState(ArrayStateInputVars),
    ArrayAddDiskToArray(ArrayDiskInputVars),
    ArrayRemoveDiskFromArray(ArrayDiskInputVars),
    ArrayMountArrayDisk(ArrayDiskIdVars),
    ArrayUnmountArrayDisk(ArrayDiskIdVars),
    ArrayClearArrayDiskStatistics(ArrayDiskIdVars),
    ParityCheckStart(ParityCheckStartVars),
    ParityCheckPause,
    ParityCheckResume,
    ParityCheckCancel,
}

/// What is sent upstream for one service call.
#[derive(Debug)]
pub enum UpstreamRequest {
    Query(QueryRequest),
    Typed(TypedOperation),
}

/// The GraphQL document of the `array` query.
pub const ARRAY_QUERY: &'static str = r#"query {
  array {
    state
    capacity {
      kilobytes { free used total }
      disks { free used total }
    }
    parityCheckStatus { status running progress speed errors correcting paused }
    parities { id name device size status temp numErrors type isSpinning rotational }
    disks {
      id name device size status temp numErrors numReads numWrites
      fsSize fsFree fsUsed type color isSpinning rotational fsType comment
    }
    caches {
      id name device size status temp numErrors
      fsSize fsFree fsUsed type color isSpinning rotational fsType
    }
  }
}"#;

/// The GraphQL document of the `disks` query.
pub const DISKS_QUERY: &'static str = r#"query {
  disks {
    id device type name vendor size serialNum
    interfaceType smartStatus temperature isSpinning
    partitions { name fsType size }
  }
}"#;

/// The GraphQL document of the `docker` query.
pub const DOCKER_QUERY: &'static str = r#"query {
  docker {
    containers {
      id names image state status autoStart autoStartOrder
      ports { privatePort publicPort type ip }
      webUiUrl iconUrl isOrphaned isUpdateAvailable
    }
  }
}"#;

/// The GraphQL document of the `docker_logs` query.
pub const DOCKER_LOGS_QUERY: &'static str = r#"query($id: PrefixedID!, $tail: Int) {
  docker {
    logs(id: $id, tail: $tail) {
      containerId
      lines { timestamp message }
      cursor
    }
  }
}"#;

/// The GraphQL document of the `vms` query.
pub const VMS_QUERY: &'static str = r#"query {
  vms {
    domains { id name state }
  }
}"#;

/// The GraphQL document of the `server` query.
pub const SERVER_QUERY: &'static str = r#"query {
  server { id name comment status wanip lanip localurl remoteurl guid }
}"#;

/// The GraphQL document of the `info` query.
pub const INFO_QUERY: &'static str = r#"query {
  info {
    time
    os { platform distro release kernel arch hostname fqdn uptime }
    cpu { brand manufacturer cores threads speed speedmax socket }
    memory { layout { size type clockSpeed } }
    versions { core { unraid kernel } }
  }
}"#;

/// The GraphQL document of the `shares` query.
pub const SHARES_QUERY: &'static str = r#"query {
  shares {
    id name free used size cache comment allocator luksStatus
  }
}"#;

/// The GraphQL document of the `notifications` query.
pub const NOTIFICATIONS_QUERY: &'static str = r#"query {
  notifications {
    overview { unread { warning alert info total } archive { warning alert info total } }
    warningsAndAlerts { id title subject description importance type timestamp }
  }
}"#;

/// The GraphQL document of the `log_files` query.
pub const LOG_FILES_QUERY: &'static str = r#"query { logFiles { name path size modifiedAt } }"#;

/// The GraphQL document of the `log_file` query.
pub const LOG_FILE_QUERY: &'static str = r#"query($path: String!, $lines: Int, $startLine: Int) {
  logFile(path: $path, lines: $lines, startLine: $startLine) {
    path content totalLines startLine
  }
}"#;

/// The GraphQL document of the `services` query.
pub const SERVICES_QUERY: &'static str = r#"query { services { id name online version uptime { timestamp } } }"#;

/// The GraphQL document of the `network` query.
pub const NETWORK_QUERY: &'static str = r#"query { network { id accessUrls { type name ipv4 ipv6 } } }"#;

/// The GraphQL document of the `ups` query.
pub const UPS_QUERY: &'static str = r#"query {
  upsDevices {
    id name model status
    battery { chargeLevel estimatedRuntime health }
    power { inputVoltage outputVoltage loadPercentage }
  }
}"#;

/// The GraphQL document of the `ups_config` query.
pub const UPS_CONFIG_QUERY: &'static str = r#"query {
  upsConfiguration {
    service upsCable upsType device batteryLevel minutes timeout
    killUps nisIp netServer upsName modelName
  }
}"#;

/// The GraphQL document of the `metrics` query.
pub const METRICS_QUERY: &'static str = r#"query {
  metrics {
    cpu { percentTotal cpus { percentTotal percentUser percentSystem percentIdle } }
    memory {
      total used free available percentTotal
      swapTotal swapUsed swapFree percentSwapTotal
    }
    temperature {
      sensors { id name type location current { value unit } warning critical }
      summary { average warningCount criticalCount }
    }
  }
}"#;

/// The GraphQL document of the `plugins` query.
pub const PLUGINS_QUERY: &'static str = r#"query { plugins { name version hasApiModule hasCliModule } }"#;

/// The GraphQL document of the `parity_history` query.
pub const PARITY_HISTORY_QUERY: &'static str = r#"query {
  parityHistory { date duration speed status errors progress correcting paused running }
}"#;

/// The GraphQL document of the `vars` query.
pub const VARS_QUERY: &'static str = r#"query {
  vars {
    version name timeZone comment sysModel
    useSsl port portssl useSsh portssh useTelnet porttelnet
    startArray spindownDelay shareSmbEnabled shareNfsEnabled shareAfpEnabled
    configValid configError regState regTo
    deviceCount flashGuid flashProduct flashVendor
    sbName sbVersion sbUpdated sbState
  }
}"#;

/// The GraphQL document of the `registration` query.
pub const REGISTRATION_QUERY: &'static str = r#"query { registration { id type state expiration updateExpiration } }"#;

/// The GraphQL document of the `flash` query.
pub const FLASH_QUERY: &'static str = r#"query { flash { id vendor product } }"#;

/// The GraphQL document of the `rclone` query.
pub const RCLONE_QUERY: &'static str = r#"query { rclone { remotes { name type } drives { name } } }"#;

/// The GraphQL document of the `remote_access` query.
pub const REMOTE_ACCESS_QUERY: &'static str = r#"query { remoteAccess { accessType forwardType port } }"#;

/// The GraphQL document of the `connect` query.
pub const CONNECT_QUERY: &'static str = r#"query {
  connect {
    id
    dynamicRemoteAccess { enabledType runningType error }
    settings { values { accessType forwardType port } }
  }
}"#;

/// The fixed query document a call sends, for the calls served by a
/// hand-written query; it depends on the kind of call only.
pub open spec fn spec_query_document(c: ServiceCall) -> Option<&'static str> {
    match c {
        ServiceCall::Array => Some(ARRAY_QUERY),
        ServiceCall::Disks => Some(DISKS_QUERY),
        ServiceCall::Docker => Some(DOCKER_QUERY),
        ServiceCall::DockerLogs { .. } => Some(DOCKER_LOGS_QUERY),
        ServiceCall::Vms => Some(VMS_QUERY),
        ServiceCall::Server => Some(SERVER_QUERY),
        ServiceCall::Info => Some(INFO_QUERY),
        ServiceCall::Shares => Some(SHARES_QUERY),
        ServiceCall::Notifications => Some(NOTIFICATIONS_QUERY),
        ServiceCall::LogFiles => Some(LOG_FILES_QUERY),
        ServiceCall::LogFile { .. } => Some(LOG_FILE_QUERY),
        ServiceCall::Services => Some(SERVICES_QUERY),
        ServiceCall::Network => Some(NETWORK_QUERY),
        ServiceCall::Ups => Some(UPS_QUERY),
        ServiceCall::UpsConfig => Some(UPS_CONFIG_QUERY),
        ServiceCall::Metrics => Some(METRICS_QUERY),
        ServiceCall::Plugins => Some(PLUGINS_QUERY),
        ServiceCall::ParityHistory => Some(PARITY_HISTORY_QUERY),
        ServiceCall::Vars => Some(VARS_QUERY),
        ServiceCall::Registration => Some(REGISTRATION_QUERY),
        ServiceCall::Flash => Some(FLASH_QUERY),
        ServiceCall::Rclone => Some(RCLONE_QUERY),
        ServiceCall::RemoteAccess => Some(REMOTE_ACCESS_QUERY),
        ServiceCall::Connect => Some(CONNECT_QUERY),
        _ => None,
    }
}

/// The wire names of `ArrayStateInputState`.
pub open spec fn spec_array_state_input(s: Seq<char>) -> Option<ArrayStateInputState> {
    if s == "START"@ {
        Some(ArrayStateInputState::Start)
    } else if s == "STOP"@ {
        Some(ArrayStateInputState::Stop)
    } else {
        None
    }
}

/// Decodes an `ArrayStateInputState` from its wire name.
pub fn parse_array_state_input(s: &str) -> (r: Option<ArrayStateInputState>)
    ensures
        r == spec_array_state_input(s@),
{
    if str_eq(s, "START") {
        Some(ArrayStateInputState::Start)
    } else if str_eq(s, "STOP") {
        Some(ArrayStateInputState::Stop)
    } else {
        None
    }
}

/// The wire names of `NotificationImportance`.
pub open spec fn spec_notification_importance(s: Seq<char>) -> Option<NotificationImportance> {
    if s == "ALERT"@ {
        Some(NotificationImportance::Alert)
    } else if s == "INFO"@ {
        Some(NotificationImportance::Info)
    } else if s == "WARNING"@ {
        Some(NotificationImportance::Warning)
    } else {
        None
    }
}

/// Decodes a `NotificationImportance` from its wire name.
pub fn parse_notification_importance(s: &str) -> (r: Option<NotificationImportance>)
    ensures
        r == spec_notification_importance(s@),
{
    if str_eq(s, "ALERT") {
        Some(NotificationImportance::Alert)
    } else if str_eq(s, "INFO") {
        Some(NotificationImportance::Info)
    } else if str_eq(s, "WARNING") {
        Some(NotificationImportance::Warning)
    } else {
        None
    }
}

/// The wire names of `Role`.
pub open spec fn spec_role(s: Seq<char>) -> Option<Role> {
    if s == "ADMIN"@ {
        Some(Role::Admin)
    } else if s == "CONNECT"@ {
        Some(Role::Connect)
    } else if s == "GUEST"@ {
        Some(Role::Guest)
    } else if s == "VIEWER"@ {
        Some(Role::Viewer)
    } else {
        None
    }
}

/// Decodes a `Role` from its wire name.
pub fn parse_role(s: &str) -> (r: Option<Role>)
    ensures
        r == spec_role(s@),
{
    if str_eq(s, "ADMIN") {
        Some(Role::Admin)
    } else if str_eq(s, "CONNECT") {
        Some(Role::Connect)
    } else if str_eq(s, "GUEST") {
        Some(Role::Guest)
    } else if str_eq(s, "VIEWER") {
        Some(Role::Viewer)
    } else {
        None
    }
}

/// The roles named by `names`, or the first name that is not a role.
pub open spec fn spec_roles(names: Seq<String>) -> Result<Seq<Role>, Seq<char>>
    decreases names.len(),
{
    if names.len() == 0 {
        Ok(Seq::empty())
    } else {
        match spec_roles(names.drop_last()) {
            Err(bad) => Err(bad),
            Ok(rs) => match spec_role(names.last()@) {
                Some(r) => Ok(rs.push(r)),
                None => Err(names.last()@),
            },
        }
    }
}

/// A name between backticks.
pub open spec fn backticked(name: Seq<char>) -> Seq<char> {
    "`"@ + name + "`"@
}

/// The list of expected names in an unknown-variant message: one name, two
/// names joined by `or`, or `one of` and the names separated by commas.
pub open spec fn expected_names_text(names: Seq<Seq<char>>) -> Seq<char> {
    if names.len() == 1 {
        backticked(names[0])
    } else if names.len() == 2 {
        backticked(names[0]) + " or "@ + backticked(names[1])
    } else {
        "one of "@ + join(names.map_values(|n: Seq<char>| backticked(n)), ", "@)
    }
}

/// The message of the error that decoding `variant` as an enum whose wire names
/// are `expected` (at least one) produces.
pub open spec fn unknown_variant_text(variant: Seq<char>, expected: Seq<Seq<char>>) -> Seq<char> {
    "unknown variant "@ + backticked(variant) + ", expected "@ + expected_names_text(expected)
}

/// `serde::de::Error::unknown_variant` for `serde_json::Error`, displayed. The
/// error is a custom message (`unknown variant `..`, expected ..`) with no
/// position, and `serde_json` displays such an error as the message alone.
#[verifier::external_body]
fn unknown_variant_message(variant: &str, expected: &'static [&'static str]) -> (r: String)
    requires
        expected@.len() > 0,
    ensures
        r@ == unknown_variant_text(variant@, str_views(expected@)),
{
    <serde_json::Error as serde::de::Error>::unknown_variant(variant, expected).to_string()
}

/// The wire names of `ArrayStateInputState`, in declaration order.
pub open spec fn array_state_input_names() -> Seq<Seq<char>> {
    seq!["START"@, "STOP"@]
}

/// The wire names of `NotificationImportance`, in declaration order.
pub open spec fn notification_importance_names() -> Seq<Seq<char>> {
    seq!["ALERT"@, "INFO"@, "WARNING"@]
}

/// The wire names of `Role`, in declaration order.
pub open spec fn role_names() -> Seq<Seq<char>> {
    seq!["ADMIN"@, "CONNECT"@, "GUEST"@, "VIEWER"@]
}

fn array_state_input_slice() -> (r: &'static [&'static str])
    ensures
        r@.len() == 2,
        str_views(r@) == array_state_input_names(),
{
    let r: &'static [&'static str] = &["START", "STOP"];
    assert(str_views(r@) =~= array_state_input_names());
    r
}

fn notification_importance_slice() -> (r: &'static [&'static str])
    ensures
        r@.len() == 3,
        str_views(r@) == notification_importance_names(),
{
    let r: &'static [&'static str] = &["ALERT", "INFO", "WARNING"];
    assert(str_views(r@) =~= notification_importance_names());
    r
}

fn role_slice() -> (r: &'static [&'static str])
    ensures
        r@.len() == 4,
        str_views(r@) == role_names(),
{
    let r: &'static [&'static str] = &["ADMIN", "CONNECT", "GUEST", "VIEWER"];
    assert(str_views(r@) =~= role_names());
    r
}

/// The request of every call that needs neither decoding nor list conversion.
pub open spec fn spec_simple_request(c: ServiceCall) -> UpstreamRequest {
    match c {
        ServiceCall::Array => UpstreamRequest::Query(QueryRequest { query: ARRAY_QUERY, variables: None }),
        ServiceCall::Disks => UpstreamRequest::Query(QueryRequest { query: DISKS_QUERY, variables: None }),
        ServiceCall::Docker => UpstreamRequest::Query(QueryRequest { query: DOCKER_QUERY, variables: None }),
        ServiceCall::Vms => UpstreamRequest::Query(QueryRequest { query: VMS_QUERY, variables: None }),
        ServiceCall::Server => UpstreamRequest::Query(QueryRequest { query: SERVER_QUERY, variables: None }),
        ServiceCall::Info => UpstreamRequest::Query(QueryRequest { query: INFO_QUERY, variables: None }),
        ServiceCall::Shares => UpstreamRequest::Query(QueryRequest { query: SHARES_QUERY, variables: None }),
        ServiceCall::Notifications => UpstreamRequest::Query(QueryRequest { query: NOTIFICATIONS_QUERY, variables: None }),
        ServiceCall::LogFiles => UpstreamRequest::Query(QueryRequest { query: LOG_FILES_QUERY, variables: None }),
        ServiceCall::Services => UpstreamRequest::Query(QueryRequest { query: SERVICES_QUERY, variables: None }),
        ServiceCall::Network => UpstreamRequest::Query(QueryRequest { query: NETWORK_QUERY, variables: None }),
        ServiceCall::Ups => UpstreamRequest::Query(QueryRequest { query: UPS_QUERY, variables: None }),
        ServiceCall::UpsConfig => UpstreamRequest::Query(QueryRequest { query: UPS_CONFIG_QUERY, variables: None }),
        ServiceCall::Metrics => UpstreamRequest::Query(QueryRequest { query: METRICS_QUERY, variables: None }),
        ServiceCall::Plugins => UpstreamRequest::Query(QueryRequest { query: PLUGINS_QUERY, variables: None }),
        ServiceCall::ParityHistory => UpstreamRequest::Query(QueryRequest { query: PARITY_HISTORY_QUERY, variables: None }),
        ServiceCall::Vars => UpstreamRequest::Query(QueryRequest { query: VARS_QUERY, variables: None }),
        ServiceCall::Registration => UpstreamRequest::Query(QueryRequest { query: REGISTRATION_QUERY, variables: None }),
        ServiceCall::Flash => UpstreamRequest::Query(QueryRequest { query: FLASH_QUERY, variables: None }),
        ServiceCall::Rclone => UpstreamRequest::Query(QueryRequest { query: RCLONE_QUERY, variables: None }),
        ServiceCall::RemoteAccess => UpstreamRequest::Query(QueryRequest { query: REMOTE_ACCESS_QUERY, variables: None }),
        ServiceCall::Connect => UpstreamRequest::Query(QueryRequest { query: CONNECT_QUERY, variables: None }),
        ServiceCall::Online => UpstreamRequest::Typed(TypedOperation::Online),
        ServiceCall::SystemTime => UpstreamRequest::Typed(TypedOperation::SystemTime),
        ServiceCall::InstalledUnraidPlugins => UpstreamRequest::Typed(TypedOperation::InstalledUnraidPlugins),
        ServiceCall::IsSsoEnabled => UpstreamRequest::Typed(TypedOperation::IsSsoEnabled),
        ServiceCall::PublicOidcProviders => UpstreamRequest::Typed(TypedOperation::PublicOidcProviders),
        ServiceCall::OidcProviders => UpstreamRequest::Typed(TypedOperation::OidcProviders),
        ServiceCall::OidcConfiguration => UpstreamRequest::Typed(TypedOperation::OidcConfiguration),
        ServiceCall::ApiKeys => UpstreamRequest::Typed(TypedOperation::ApiKeys),
        ServiceCall::ApiKeyPossibleRoles => UpstreamRequest::Typed(TypedOperation::ApiKeyPossibleRoles),
        ServiceCall::ApiKeyPossiblePermissions => UpstreamRequest::Typed(TypedOperation::ApiKeyPossiblePermissions),
        ServiceCall::GetAvailableAuthActions => UpstreamRequest::Typed(TypedOperation::GetAvailableAuthActions),
        ServiceCall::GetApiKeyCreationFormSchema => UpstreamRequest::Typed(TypedOperation::GetApiKeyCreationFormSchema),
        ServiceCall::Config => UpstreamRequest::Typed(TypedOperation::Config),
        ServiceCall::Settings => UpstreamRequest::Typed(TypedOperation::Settings),
        ServiceCall::Display => UpstreamRequest::Typed(TypedOperation::Display),
        ServiceCall::Customization => UpstreamRequest::Typed(TypedOperation::Customization),
        ServiceCall::InternalBootContext => UpstreamRequest::Typed(TypedOperation::InternalBootContext),
        ServiceCall::Me => UpstreamRequest::Typed(TypedOperation::Me),
        ServiceCall::Owner => UpstreamRequest::Typed(TypedOperation::Owner),
        ServiceCall::Servers => UpstreamRequest::Typed(TypedOperation::Servers),
        ServiceCall::IsFreshInstall => UpstreamRequest::Typed(TypedOperation::IsFreshInstall),
        ServiceCall::PublicTheme => UpstreamRequest::Typed(TypedOperation::PublicTheme),
        ServiceCall::NetworkInterfaces => UpstreamRequest::Typed(TypedOperation::NetworkInterfaces),
        ServiceCall::TimeZoneOptions => UpstreamRequest::Typed(TypedOperation::TimeZoneOptions),
        ServiceCall::AssignableDisks => UpstreamRequest::Typed(TypedOperation::AssignableDisks),
        ServiceCall::PluginInstallOperations => UpstreamRequest::Typed(TypedOperation::PluginInstallOperations),
        ServiceCall::Cloud => UpstreamRequest::Typed(TypedOperation::Cloud),
        ServiceCall::ApiKey(id) => UpstreamRequest::Typed(TypedOperation::ApiKeyById(PrefixedIdVars { id: PrefixedID(id) })),
        ServiceCall::Disk(id) => UpstreamRequest::Typed(TypedOperation::DiskById(PrefixedIdVars { id: PrefixedID(id) })),
        ServiceCall::OidcProvider(id) => UpstreamRequest::Typed(TypedOperation::OidcProviderById(PrefixedIdVars { id: PrefixedID(id) })),
        ServiceCall::UpsDeviceById(id) => UpstreamRequest::Typed(TypedOperation::UpsDeviceById(StringIdVars { id: id })),
        ServiceCall::PluginInstallOperation(id) => UpstreamRequest::Typed(TypedOperation::PluginInstallOperationById(OperationIdVars { operation_id: id })),
        ServiceCall::ValidateOidcSession(id) => UpstreamRequest::Typed(TypedOperation::ValidateOidcSession(TokenVars { token: id })),
        ServiceCall::RecalculateOverview => UpstreamRequest::Typed(TypedOperation::RecalculateOverview),
        ServiceCall::DeleteArchivedNotifications => UpstreamRequest::Typed(TypedOperation::DeleteArchivedNotifications),
        ServiceCall::ArchiveNotification(id) => UpstreamRequest::Typed(TypedOperation::ArchiveNotification(PrefixedIdVars { id: PrefixedID(id) })),
        ServiceCall::VmStart(id) => UpstreamRequest::Typed(TypedOperation::VmStart(VmIdVars { id: PrefixedID(id) })),
        ServiceCall::VmStop(id) => UpstreamRequest::Typed(TypedOperation::VmStop(VmIdVars { id: PrefixedID(id) })),
        ServiceCall::VmPause(id) => UpstreamRequest::Typed(TypedOperation::VmPause(VmIdVars { id: PrefixedID(id) })),
        ServiceCall::VmResume(id) => UpstreamRequest::Typed(TypedOperation::VmResume(VmIdVars { id: PrefixedID(id) })),
        ServiceCall::VmForceStop(id) => UpstreamRequest::Typed(TypedOperation::VmForceStop(VmIdVars { id: PrefixedID(id) })),
        ServiceCall::VmReboot(id) => UpstreamRequest::Typed(TypedOperation::VmReboot(VmIdVars { id: PrefixedID(id) })),
        ServiceCall::VmReset(id) => UpstreamRequest::Typed(TypedOperation::VmReset(VmIdVars { id: PrefixedID(id) })),
        ServiceCall::DockerStart(id) => UpstreamRequest::Typed(TypedOperation::DockerStart(DockerIdVars { id: PrefixedID(id) })),
        ServiceCall::DockerStop(id) => UpstreamRequest::Typed(TypedOperation::DockerStop(DockerIdVars { id: PrefixedID(id) })),
        ServiceCall::DockerPause(id) => UpstreamRequest::Typed(TypedOperation::DockerPause(DockerIdVars { id: PrefixedID(id) })),
        ServiceCall::DockerUnpause(id) => UpstreamRequest::Typed(TypedOperation::DockerUnpause(DockerIdVars { id: PrefixedID(id) })),
        ServiceCall::DockerUpdateContainer(id) => UpstreamRequest::Typed(TypedOperation::DockerUpdateContainer(DockerIdVars { id: PrefixedID(id) })),
        ServiceCall::DockerRemoveContainer { id, with_image } => UpstreamRequest::Typed(TypedOperation::DockerRemoveContainer(DockerRemoveVars { id: PrefixedID(id), with_image })),
        ServiceCall::DockerUpdateAllContainers => UpstreamRequest::Typed(TypedOperation::DockerUpdateAllContainers),
        ServiceCall::ArrayAddDiskToArray { id, slot } => UpstreamRequest::Typed(TypedOperation::ArrayAddDiskToArray(ArrayDiskInputVars { input: ArrayDiskInput { id: PrefixedID(id), slot } })),
        ServiceCall::ArrayRemoveDiskFromArray { id, slot } => UpstreamRequest::Typed(TypedOperation::ArrayRemoveDiskFromArray(ArrayDiskInputVars { input: ArrayDiskInput { id: PrefixedID(id), slot } })),
        ServiceCall::ArrayMountArrayDisk(id) => UpstreamRequest::Typed(TypedOperation::ArrayMountArrayDisk(ArrayDiskIdVars { id: PrefixedID(id) })),
        ServiceCall::ArrayUnmountArrayDisk(id) => UpstreamRequest::Typed(TypedOperation::ArrayUnmountArrayDisk(ArrayDiskIdVars { id: PrefixedID(id) })),
        ServiceCall::ArrayClearArrayDiskStatistics(id) => UpstreamRequest::Typed(TypedOperation::ArrayClearArrayDiskStatistics(ArrayDiskIdVars { id: PrefixedID(id) })),
        ServiceCall::ParityCheckStart(correct) => UpstreamRequest::Typed(TypedOperation::ParityCheckStart(ParityCheckStartVars { correct })),
        ServiceCall::ParityCheckPause => UpstreamRequest::Typed(TypedOperation::ParityCheckPause),
        ServiceCall::ParityCheckResume => UpstreamRequest::Typed(TypedOperation::ParityCheckResume),
        ServiceCall::ParityCheckCancel => UpstreamRequest::Typed(TypedOperation::ParityCheckCancel),
        _ => UpstreamRequest::Typed(TypedOperation::Online),
    }
}

/// Whether a call's request is built by [`spec_simple_request`].
pub open spec fn is_simple_call(c: ServiceCall) -> bool {
    !(c is DockerLogs || c is LogFile || c is GetPermissionsForRoles || c is CreateNotification
        || c is DockerUpdateContainers || c is ArraySetState)
}

/// The message for a role name that is not a role.
pub open spec fn spec_invalid_role_message(name: Seq<char>) -> Seq<char> {
    "invalid role value: "@ + unknown_variant_text(name, role_names())
}

/// The message for a notification importance that is not one.
pub open spec fn spec_invalid_importance_message(importance: Seq<char>) -> Seq<char> {
    "invalid importance (expected ALERT/INFO/WARNING): "@ + unknown_variant_text(importance, notification_importance_names())
}

/// The message for an array state that is not one.
pub open spec fn spec_invalid_desired_state_message(state: Seq<char>) -> Seq<char> {
    "invalid desired_state (START/STOP): "@ + unknown_variant_text(state, array_state_input_names())
}

/// The message reporting that `name` is not a role.
pub fn invalid_role_message(name: &str) -> (r: String)
    ensures
        r@ == spec_invalid_role_message(name@),
{
    let detail = unknown_variant_message(name, role_slice());
    concat2("invalid role value: ", detail.as_str())
}

/// The message reporting that `importance` is not a notification importance.
pub fn invalid_importance_message(importance: &str) -> (r: String)
    ensures
        r@ == spec_invalid_importance_message(importance@),
{
    let detail = unknown_variant_message(importance, notification_importance_slice());
    concat2("invalid importance (expected ALERT/INFO/WARNING): ", detail.as_str())
}

/// The message reporting that `state` is not an array state.
pub fn invalid_desired_state_message(state: &str) -> (r: String)
    ensures
        r@ == spec_invalid_desired_state_message(state@),
{
    let detail = unknown_variant_message(state, array_state_input_slice());
    concat2("invalid desired_state (START/STOP): ", detail.as_str())
}

/// `r` is the outcome of building the upstream request of call `c`.
pub open spec fn request_is(c: ServiceCall, r: Result<UpstreamRequest, UpstreamError>) -> bool {
    match c {
        ServiceCall::DockerLogs { id, tail } => match r {
            Ok(UpstreamRequest::Query(q)) => q.query == DOCKER_LOGS_QUERY && match q.variables {
                Some(v) => v@ == seq![
                    ("id", GqlVar::Str(id)),
                    ("tail", GqlVar::Int(match tail { Some(t) => t, None => 100i64 })),
                ],
                None => false,
            },
            _ => false,
        },
        ServiceCall::LogFile { path, lines, start_line } => match r {
            Ok(UpstreamRequest::Query(q)) => q.query == LOG_FILE_QUERY && match q.variables {
                Some(v) => v@ == seq![
                    ("path", GqlVar::Str(path)),
                    ("lines", match lines { Some(n) => GqlVar::Int(n), None => GqlVar::Null }),
                    ("startLine", match start_line { Some(n) => GqlVar::Int(n), None => GqlVar::Null }),
                ],
                None => false,
            },
            _ => false,
        },
        ServiceCall::GetPermissionsForRoles(names) => match spec_roles(names@) {
            Ok(roles) => match r {
                Ok(UpstreamRequest::Typed(TypedOperation::PermissionsForRoles(v))) => v.roles@ == roles,
                _ => false,
            },
            Err(bad) => match r {
                Err(UpstreamError::Other(m)) => m@ == spec_invalid_role_message(bad),
                _ => false,
            },
        },
        ServiceCall::CreateNotification { title, subject, description, importance, link } =>
            match spec_notification_importance(importance@) {
                Some(imp) => match r {
                    Ok(UpstreamRequest::Typed(TypedOperation::CreateNotification(v))) => v.input == NotificationData {
                        title,
                        subject,
                        description,
                        importance: imp,
                        link,
                    },
                    _ => false,
                },
                None => match r {
                    Err(UpstreamError::Other(m)) => m@ == spec_invalid_importance_message(importance@),
                    _ => false,
                },
            },
        ServiceCall::DockerUpdateContainers(ids) => match r {
            Ok(UpstreamRequest::Typed(TypedOperation::DockerUpdateContainers(v))) =>
                v.ids@.len() == ids@.len() && forall|i: int| 0 <= i < ids@.len() ==> (#[trigger] v.ids@[i]).0 == ids@[i],
            _ => false,
        },
        ServiceCall::ArraySetState(ds) => match spec_array_state_input(ds@) {
            Some(st) => match r {
                Ok(UpstreamRequest::Typed(TypedOperation::ArraySetState(v))) => v.input.desired_state == st,
                _ => false,
            },
            None => match r {
                Err(UpstreamError::Other(m)) => m@ == spec_invalid_desired_state_message(ds@),
                _ => false,
            },
        },
        _ => r == Ok::<UpstreamRequest, UpstreamError>(spec_simple_request(c)),
    }
}

/// Decodes role names, stopping at the first name that is not a role.
pub fn parse_roles(names: &Vec<String>) -> (r: Result<Vec<Role>, &String>)
    ensures
        match spec_roles(names@) {
            Ok(roles) => r matches Ok(v) && v@ == roles,
            Err(bad) => r matches Err(s) && s@ == bad,
        },
{
    let mut roles: Vec<Role> = Vec::new();
    let mut i: usize = 0;
    while i < names.len()
        invariant
            i <= names@.len(),
            spec_roles(names@.take(i as int)) == Ok::<Seq<Role>, Seq<char>>(roles@),
        decreases names@.len() - i,
    {
        let ghost prev = names@.take(i as int);
        let ghost next = names@.take(i + 1);
        assert(next.drop_last() =~= prev);
        assert(next.last() == names@[i as int]);
        match parse_role(names[i].as_str()) {
            Some(role) => {
                roles.push(role);
            },
            None => {
                proof {
                    lemma_roles_error_persists(names@, (i + 1) as int);
                }
                return Err(&names[i]);
            },
        }
        i = i + 1;
    }
    assert(names@.take(names@.len() as int) =~= names@);
    Ok(roles)
}

/// Once a prefix of the names holds an invalid role, the whole list reports
/// that same first invalid name.
proof fn lemma_roles_error_persists(names: Seq<String>, k: int)
    requires
        0 <= k <= names.len(),
        spec_roles(names.take(k)) is Err,
    ensures
        spec_roles(names) == spec_roles(names.take(k)),
    decreases names.len() - k,
{
    if k < names.len() {
        let next = names.take(k + 1);
        assert(next.drop_last() =~= names.take(k));
        lemma_roles_error_persists(names, k + 1);
    } else {
        assert(names.take(k) =~= names);
    }
}

/// Wraps each container id as a `PrefixedID`.
fn prefixed_ids(ids: Vec<String>) -> (r: Vec<PrefixedID>)
    ensures
        r@.len() == ids@.len(),
        forall|i: int| 0 <= i < ids@.len() ==> (#[trigger] r@[i]).0 == ids@[i],
{
    let mut r: Vec<PrefixedID> = Vec::new();
    let mut i: usize = 0;
    while i < ids.len()
        invariant
            i <= ids@.len(),
            r@.len() == i,
            forall|k: int| 0 <= k < i ==> (#[trigger] r@[k]).0 == ids@[k],
        decreases ids@.len() - i,
    {
        r.push(PrefixedID(ids[i].clone()));
        i = i + 1;
    }
    r
}

/// The upstream request of a service call: a fixed query document with the
/// call's arguments as variables, or a typed operation with its variables.
/// Enumerated arguments (array state, notification importance, roles) are
/// decoded by wire name; a name that is not one is an [`UpstreamError::Other`]
/// carrying `serde_json`'s unknown-variant message.
pub fn request_for(c: ServiceCall) -> (r: Result<UpstreamRequest, UpstreamError>)
    ensures
        request_is(c, r),
        r matches Ok(UpstreamRequest::Query(q)) ==> spec_query_document(c) == Some(q.query),
{
    match c {
        ServiceCall::DockerLogs { id, tail } => {
            let t: i64 = match tail {
                Some(t) => t,
                None => 100,
            };
            let mut vars: Vec<(&'static str, GqlVar)> = Vec::new();
            vars.push(("id", GqlVar::Str(id)));
            vars.push(("tail", GqlVar::Int(t)));
            assert(vars@ =~= seq![("id", GqlVar::Str(id)), ("tail", GqlVar::Int(t))]);
            let req = UpstreamRequest::Query(QueryRequest { query: DOCKER_LOGS_QUERY, variables: Some(vars) });
            assert(match req {
                UpstreamRequest::Query(q) => match q.variables {
                    Some(v) => v@ == seq![
                        ("id", GqlVar::Str(id)),
                        ("tail", GqlVar::Int(match tail { Some(t) => t, None => 100i64 })),
                    ],
                    None => false,
                },
                _ => false,
            });
            Ok(req)
        },
        ServiceCall::LogFile { path, lines, start_line } => {
            let mut vars: Vec<(&'static str, GqlVar)> = Vec::new();
            vars.push(("path", GqlVar::Str(path)));
            vars.push(("lines", match lines { Some(n) => GqlVar::Int(n), None => GqlVar::Null }));
            vars.push(("startLine", match start_line { Some(n) => GqlVar::Int(n), None => GqlVar::Null }));
            assert(vars@ =~= seq![
                ("path", GqlVar::Str(path)),
                ("lines", match lines { Some(n) => GqlVar::Int(n), None => GqlVar::Null }),
                ("startLine", match start_line { Some(n) => GqlVar::Int(n), None => GqlVar::Null }),
            ]);
            Ok(UpstreamRequest::Query(QueryRequest { query: LOG_FILE_QUERY, variables: Some(vars) }))
        },
        ServiceCall::GetPermissionsForRoles(names) => {
            match parse_roles(&names) {
                Ok(roles) => Ok(UpstreamRequest::Typed(TypedOperation::PermissionsForRoles(RolesVars { roles }))),
                Err(bad) => Err(UpstreamError::Other(invalid_role_message(bad.as_str()))),
            }
        },
        ServiceCall::CreateNotification { title, subject, description, importance, link } => {
            match parse_notification_importance(importance.as_str()) {
                Some(imp) => Ok(UpstreamRequest::Typed(TypedOperation::CreateNotification(CreateNotificationVars {
                    input: NotificationData { title, subject, description, importance: imp, link },
                }))),
                None => Err(UpstreamError::Other(invalid_importance_message(importance.as_str()))),
            }
        },
        ServiceCall::DockerUpdateContainers(ids) => {
            let ids = prefixed_ids(ids);
            Ok(UpstreamRequest::Typed(TypedOperation::DockerUpdateContainers(DockerIdsVars { ids })))
        },
        ServiceCall::ArraySetState(ds) => {
            match parse_array_state_input(ds.as_str()) {
                Some(st) => Ok(UpstreamRequest::Typed(TypedOperation::ArraySetState(ArrayStateInputVars {
                    input: ArrayStateInput { desired_state: st },
                }))),
                None => Err(UpstreamError::Other(invalid_desired_state_message(ds.as_str()))),
            }
        },
        ServiceCall::Array => Ok(UpstreamRequest::Query(QueryRequest { query: ARRAY_QUERY, variables: None })),
        ServiceCall::Disks => Ok(UpstreamRequest::Query(QueryRequest { query: DISKS_QUERY, variables: None })),
        ServiceCall::Docker => Ok(UpstreamRequest::Query(QueryRequest { query: DOCKER_QUERY, variables: None })),
        ServiceCall::Vms => Ok(UpstreamRequest::Query(QueryRequest { query: VMS_QUERY, variables: None })),
        ServiceCall::Server => Ok(UpstreamRequest::Query(QueryRequest { query: SERVER_QUERY, variables: None })),
        ServiceCall::Info => Ok(UpstreamRequest::Query(QueryRequest { query: INFO_QUERY, variables: None })),
        ServiceCall::Shares => Ok(UpstreamRequest::Query(QueryRequest { query: SHARES_QUERY, variables: None })),
        ServiceCall::Notifications => Ok(UpstreamRequest::Query(QueryRequest { query: NOTIFICATIONS_QUERY, variables: None })),
        ServiceCall::LogFiles => Ok(UpstreamRequest::Query(QueryRequest { query: LOG_FILES_QUERY, variables: None })),
        ServiceCall::Services => Ok(UpstreamRequest::Query(QueryRequest { query: SERVICES_QUERY, variables: None })),
        ServiceCall::Network => Ok(UpstreamRequest::Query(QueryRequest { query: NETWORK_QUERY, variables: None })),
        ServiceCall::Ups => Ok(UpstreamRequest::Query(QueryRequest { query: UPS_QUERY, variables: None })),
        ServiceCall::UpsConfig => Ok(UpstreamRequest::Query(QueryRequest { query: UPS_CONFIG_QUERY, variables: None })),
        ServiceCall::Metrics => Ok(UpstreamRequest::Query(QueryRequest { query: METRICS_QUERY, variables: None })),
        ServiceCall::Plugins => Ok(UpstreamRequest::Query(QueryRequest { query: PLUGINS_QUERY, variables: None })),
        ServiceCall::ParityHistory => Ok(UpstreamRequest::Query(QueryRequest { query: PARITY_HISTORY_QUERY, variables: None })),
        ServiceCall::Vars => Ok(UpstreamRequest::Query(QueryRequest { query: VARS_QUERY, variables: None })),
        ServiceCall::Registration => Ok(UpstreamRequest::Query(QueryRequest { query: REGISTRATION_QUERY, variables: None })),
        ServiceCall::Flash => Ok(UpstreamRequest::Query(QueryRequest { query: FLASH_QUERY, variables: None })),
        ServiceCall::Rclone => Ok(UpstreamRequest::Query(QueryRequest { query: RCLONE_QUERY, variables: None })),
        ServiceCall::RemoteAccess => Ok(UpstreamRequest::Query(QueryRequest { query: REMOTE_ACCESS_QUERY, variables: None })),
        ServiceCall::Connect => Ok(UpstreamRequest::Query(QueryRequest { query: CONNECT_QUERY, variables: None })),
        ServiceCall::Online => Ok(UpstreamRequest::Typed(TypedOperation::Online)),
        ServiceCall::SystemTime => Ok(UpstreamRequest::Typed(TypedOperation::SystemTime)),
        ServiceCall::InstalledUnraidPlugins => Ok(UpstreamRequest::Typed(TypedOperation::InstalledUnraidPlugins)),
        ServiceCall::IsSsoEnabled => Ok(UpstreamRequest::Typed(TypedOperation::IsSsoEnabled)),
        ServiceCall::PublicOidcProviders => Ok(UpstreamRequest::Typed(TypedOperation::PublicOidcProviders)),
        ServiceCall::OidcProviders => Ok(UpstreamRequest::Typed(TypedOperation::OidcProviders)),
        ServiceCall::OidcConfiguration => Ok(UpstreamRequest::Typed(TypedOperation::OidcConfiguration)),
        ServiceCall::ApiKeys => Ok(UpstreamRequest::Typed(TypedOperation::ApiKeys)),
        ServiceCall::ApiKeyPossibleRoles => Ok(UpstreamRequest::Typed(TypedOperation::ApiKeyPossibleRoles)),
        ServiceCall::ApiKeyPossiblePermissions => Ok(UpstreamRequest::Typed(TypedOperation::ApiKeyPossiblePermissions)),
        ServiceCall::GetAvailableAuthActions => Ok(UpstreamRequest::Typed(TypedOperation::GetAvailableAuthActions)),
        ServiceCall::GetApiKeyCreationFormSchema => Ok(UpstreamRequest::Typed(TypedOperation::GetApiKeyCreationFormSchema)),
        ServiceCall::Config => Ok(UpstreamRequest::Typed(TypedOperation::Config)),
        ServiceCall::Settings => Ok(UpstreamRequest::Typed(TypedOperation::Settings)),
        ServiceCall::Display => Ok(UpstreamRequest::Typed(TypedOperation::Display)),
        ServiceCall::Customization => Ok(UpstreamRequest::Typed(TypedOperation::Customization)),
        ServiceCall::InternalBootContext => Ok(UpstreamRequest::Typed(TypedOperation::InternalBootContext)),
        ServiceCall::Me => Ok(UpstreamRequest::Typed(TypedOperation::Me)),
        ServiceCall::Owner => Ok(UpstreamRequest::Typed(TypedOperation::Owner)),
        ServiceCall::Servers => Ok(UpstreamRequest::Typed(TypedOperation::Servers)),
        ServiceCall::IsFreshInstall => Ok(UpstreamRequest::Typed(TypedOperation::IsFreshInstall)),
        ServiceCall::PublicTheme => Ok(UpstreamRequest::Typed(TypedOperation::PublicTheme)),
        ServiceCall::NetworkInterfaces => Ok(UpstreamRequest::Typed(TypedOperation::NetworkInterfaces)),
        ServiceCall::TimeZoneOptions => Ok(UpstreamRequest::Typed(TypedOperation::TimeZoneOptions)),
        ServiceCall::AssignableDisks => Ok(UpstreamRequest::Typed(TypedOperation::AssignableDisks)),
        ServiceCall::PluginInstallOperations => Ok(UpstreamRequest::Typed(TypedOperation::PluginInstallOperations)),
        ServiceCall::Cloud => Ok(UpstreamRequest::Typed(TypedOperation::Cloud)),
        ServiceCall::ApiKey(id) => Ok(UpstreamRequest::Typed(TypedOperation::ApiKeyById(PrefixedIdVars { id: PrefixedID(id) }))),
        ServiceCall::Disk(id) => Ok(UpstreamRequest::Typed(TypedOperation::DiskById(PrefixedIdVars { id: PrefixedID(id) }))),
        ServiceCall::OidcProvider(id) => Ok(UpstreamRequest::Typed(TypedOperation::OidcProviderById(PrefixedIdVars { id: PrefixedID(id) }))),
        ServiceCall::UpsDeviceById(id) => Ok(UpstreamRequest::Typed(TypedOperation::UpsDeviceById(StringIdVars { id: id }))),
        ServiceCall::PluginInstallOperation(id) => Ok(UpstreamRequest::Typed(TypedOperation::PluginInstallOperationById(OperationIdVars { operation_id: id }))),
        ServiceCall::ValidateOidcSession(id) => Ok(UpstreamRequest::Typed(TypedOperation::ValidateOidcSession(TokenVars { token: id }))),
        ServiceCall::RecalculateOverview => Ok(UpstreamRequest::Typed(TypedOperation::RecalculateOverview)),
        ServiceCall::DeleteArchivedNotifications => Ok(UpstreamRequest::Typed(TypedOperation::DeleteArchivedNotifications)),
        ServiceCall::ArchiveNotification(id) => Ok(UpstreamRequest::Typed(TypedOperation::ArchiveNotification(PrefixedIdVars { id: PrefixedID(id) }))),
        ServiceCall::VmStart(id) => Ok(UpstreamRequest::Typed(TypedOperation::VmStart(VmIdVars { id: PrefixedID(id) }))),
        ServiceCall::VmStop(id) => Ok(UpstreamRequest::Typed(TypedOperation::VmStop(VmIdVars { id: PrefixedID(id) }))),
        ServiceCall::VmPause(id) => Ok(UpstreamRequest::Typed(TypedOperation::VmPause(VmIdVars { id: PrefixedID(id) }))),
        ServiceCall::VmResume(id) => Ok(UpstreamRequest::Typed(TypedOperation::VmResume(VmIdVars { id: PrefixedID(id) }))),
        ServiceCall::VmForceStop(id) => Ok(UpstreamRequest::Typed(TypedOperation::VmForceStop(VmIdVars { id: PrefixedID(id) }))),
        ServiceCall::VmReboot(id) => Ok(UpstreamRequest::Typed(TypedOperation::VmReboot(VmIdVars { id: PrefixedID(id) }))),
        ServiceCall::VmReset(id) => Ok(UpstreamRequest::Typed(TypedOperation::VmReset(VmIdVars { id: PrefixedID(id) }))),
        ServiceCall::DockerStart(id) => Ok(UpstreamRequest::Typed(TypedOperation::DockerStart(DockerIdVars { id: PrefixedID(id) }))),
        ServiceCall::DockerStop(id) => Ok(UpstreamRequest::Typed(TypedOperation::DockerStop(DockerIdVars { id: PrefixedID(id) }))),
        ServiceCall::DockerPause(id) => Ok(UpstreamRequest::Typed(TypedOperation::DockerPause(DockerIdVars { id: PrefixedID(id) }))),
        ServiceCall::DockerUnpause(id) => Ok(UpstreamRequest::Typed(TypedOperation::DockerUnpause(DockerIdVars { id: PrefixedID(id) }))),
        ServiceCall::DockerUpdateContainer(id) => Ok(UpstreamRequest::Typed(TypedOperation::DockerUpdateContainer(DockerIdVars { id: PrefixedID(id) }))),
        ServiceCall::DockerRemoveContainer { id, with_image } => Ok(UpstreamRequest::Typed(TypedOperation::DockerRemoveContainer(DockerRemoveVars { id: PrefixedID(id), with_image }))),
        ServiceCall::DockerUpdateAllContainers => Ok(UpstreamRequest::Typed(TypedOperation::DockerUpdateAllContainers)),
        ServiceCall::ArrayAddDiskToArray { id, slot } => Ok(UpstreamRequest::Typed(TypedOperation::ArrayAddDiskToArray(ArrayDiskInputVars { input: ArrayDiskInput { id: PrefixedID(id), slot } }))),
        ServiceCall::ArrayRemoveDiskFromArray { id, slot } => Ok(UpstreamRequest::Typed(TypedOperation::ArrayRemoveDiskFromArray(ArrayDiskInputVars { input: ArrayDiskInput { id: PrefixedID(id), slot } }))),
        ServiceCall::ArrayMountArrayDisk(id) => Ok(UpstreamRequest::Typed(TypedOperation::ArrayMountArrayDisk(ArrayDiskIdVars { id: PrefixedID(id) }))),
        ServiceCall::ArrayUnmountArrayDisk(id) => Ok(UpstreamRequest::Typed(TypedOperation::ArrayUnmountArrayDisk(ArrayDiskIdVars { id: PrefixedID(id) }))),
        ServiceCall::ArrayClearArrayDiskStatistics(id) => Ok(UpstreamRequest::Typed(TypedOperation::ArrayClearArrayDiskStatistics(ArrayDiskIdVars { id: PrefixedID(id) }))),
        ServiceCall::ParityCheckStart(correct) => Ok(UpstreamRequest::Typed(TypedOperation::ParityCheckStart(ParityCheckStartVars { correct }))),
        ServiceCall::ParityCheckPause => Ok(UpstreamRequest::Typed(TypedOperation::ParityCheckPause)),
        ServiceCall::ParityCheckResume => Ok(UpstreamRequest::Typed(TypedOperation::ParityCheckResume)),
        ServiceCall::ParityCheckCancel => Ok(UpstreamRequest::Typed(TypedOperation::ParityCheckCancel)),
    }
}

/// Every call is sent as the operation of its own kind, carrying its arguments
/// unchanged: an argument-free call sends its fixed query (with no variables) or
/// its typed operation, an identifier travels as the operation's id, and flags,
/// slots and tokens are passed through as given (`parity_check_start` with
/// `correct == false` stays a non-correcting check).
pub proof fn lemma_request_carries_the_call(c: ServiceCall, r: Result<UpstreamRequest, UpstreamError>)
    requires
        request_is(c, r),
    ensures
        match c {
            ServiceCall::Array => r matches Ok(UpstreamRequest::Query(q)) && q.query == ARRAY_QUERY && q.variables is None,
            ServiceCall::Disks => r matches Ok(UpstreamRequest::Query(q)) && q.query == DISKS_QUERY && q.variables is None,
            ServiceCall::Docker => r matches Ok(UpstreamRequest::Query(q)) && q.query == DOCKER_QUERY && q.variables is None,
            ServiceCall::Vms => r matches Ok(UpstreamRequest::Query(q)) && q.query == VMS_QUERY && q.variables is None,
            ServiceCall::Server => r matches Ok(UpstreamRequest::Query(q)) && q.query == SERVER_QUERY && q.variables is None,
            ServiceCall::Info => r matches Ok(UpstreamRequest::Query(q)) && q.query == INFO_QUERY && q.variables is None,
            ServiceCall::Shares => r matches Ok(UpstreamRequest::Query(q)) && q.query == SHARES_QUERY && q.variables is None,
            ServiceCall::Notifications => r matches Ok(UpstreamRequest::Query(q)) && q.query == NOTIFICATIONS_QUERY && q.variables is None,
            ServiceCall::LogFiles => r matches Ok(UpstreamRequest::Query(q)) && q.query == LOG_FILES_QUERY && q.variables is None,
            ServiceCall::Services => r matches Ok(UpstreamRequest::Query(q)) && q.query == SERVICES_QUERY && q.variables is None,
            ServiceCall::Network => r matches Ok(UpstreamRequest::Query(q)) && q.query == NETWORK_QUERY && q.variables is None,
            ServiceCall::Ups => r matches Ok(UpstreamRequest::Query(q)) && q.query == UPS_QUERY && q.variables is None,
            ServiceCall::UpsConfig => r matches Ok(UpstreamRequest::Query(q)) && q.query == UPS_CONFIG_QUERY && q.variables is None,
            ServiceCall::Metrics => r matches Ok(UpstreamRequest::Query(q)) && q.query == METRICS_QUERY && q.variables is None,
            ServiceCall::Plugins => r matches Ok(UpstreamRequest::Query(q)) && q.query == PLUGINS_QUERY && q.variables is None,
            ServiceCall::ParityHistory => r matches Ok(UpstreamRequest::Query(q)) && q.query == PARITY_HISTORY_QUERY && q.variables is None,
            ServiceCall::Vars => r matches Ok(UpstreamRequest::Query(q)) && q.query == VARS_QUERY && q.variables is None,
            ServiceCall::Registration => r matches Ok(UpstreamRequest::Query(q)) && q.query == REGISTRATION_QUERY && q.variables is None,
            ServiceCall::Flash => r matches Ok(UpstreamRequest::Query(q)) && q.query == FLASH_QUERY && q.variables is None,
            ServiceCall::Rclone => r matches Ok(UpstreamRequest::Query(q)) && q.query == RCLONE_QUERY && q.variables is None,
            ServiceCall::RemoteAccess => r matches Ok(UpstreamRequest::Query(q)) && q.query == REMOTE_ACCESS_QUERY && q.variables is None,
            ServiceCall::Connect => r matches Ok(UpstreamRequest::Query(q)) && q.query == CONNECT_QUERY && q.variables is None,
            ServiceCall::Online => r matches Ok(UpstreamRequest::Typed(TypedOperation::Online)),
            ServiceCall::SystemTime => r matches Ok(UpstreamRequest::Typed(TypedOperation::SystemTime)),
            ServiceCall::InstalledUnraidPlugins => r matches Ok(UpstreamRequest::Typed(TypedOperation::InstalledUnraidPlugins)),
            ServiceCall::IsSsoEnabled => r matches Ok(UpstreamRequest::Typed(TypedOperation::IsSsoEnabled)),
            ServiceCall::PublicOidcProviders => r matches Ok(UpstreamRequest::Typed(TypedOperation::PublicOidcProviders)),
            ServiceCall::OidcProviders => r matches Ok(UpstreamRequest::Typed(TypedOperation::OidcProviders)),
            ServiceCall::OidcConfiguration => r matches Ok(UpstreamRequest::Typed(TypedOperation::OidcConfiguration)),
            ServiceCall::ApiKeys => r matches Ok(UpstreamRequest::Typed(TypedOperation::ApiKeys)),
            ServiceCall::ApiKeyPossibleRoles => r matches Ok(UpstreamRequest::Typed(TypedOperation::ApiKeyPossibleRoles)),
            ServiceCall::ApiKeyPossiblePermissions => r matches Ok(UpstreamRequest::Typed(TypedOperation::ApiKeyPossiblePermissions)),
            ServiceCall::GetAvailableAuthActions => r matches Ok(UpstreamRequest::Typed(TypedOperation::GetAvailableAuthActions)),
            ServiceCall::GetApiKeyCreationFormSchema => r matches Ok(UpstreamRequest::Typed(TypedOperation::GetApiKeyCreationFormSchema)),
            ServiceCall::Config => r matches Ok(UpstreamRequest::Typed(TypedOperation::Config)),
            ServiceCall::Settings => r matches Ok(UpstreamRequest::Typed(TypedOperation::Settings)),
            ServiceCall::Display => r matches Ok(UpstreamRequest::Typed(TypedOperation::Display)),
            ServiceCall::Customization => r matches Ok(UpstreamRequest::Typed(TypedOperation::Customization)),
            ServiceCall::InternalBootContext => r matches Ok(UpstreamRequest::Typed(TypedOperation::InternalBootContext)),
            ServiceCall::Me => r matches Ok(UpstreamRequest::Typed(TypedOperation::Me)),
            ServiceCall::Owner => r matches Ok(UpstreamRequest::Typed(TypedOperation::Owner)),
            ServiceCall::Servers => r matches Ok(UpstreamRequest::Typed(TypedOperation::Servers)),
            ServiceCall::IsFreshInstall => r matches Ok(UpstreamRequest::Typed(TypedOperation::IsFreshInstall)),
            ServiceCall::PublicTheme => r matches Ok(UpstreamRequest::Typed(TypedOperation::PublicTheme)),
            ServiceCall::NetworkInterfaces => r matches Ok(UpstreamRequest::Typed(TypedOperation::NetworkInterfaces)),
            ServiceCall::TimeZoneOptions => r matches Ok(UpstreamRequest::Typed(TypedOperation::TimeZoneOptions)),
            ServiceCall::AssignableDisks => r matches Ok(UpstreamRequest::Typed(TypedOperation::AssignableDisks)),
            ServiceCall::PluginInstallOperations => r matches Ok(UpstreamRequest::Typed(TypedOperation::PluginInstallOperations)),
            ServiceCall::Cloud => r matches Ok(UpstreamRequest::Typed(TypedOperation::Cloud)),
            ServiceCall::ApiKey(id) => r matches Ok(UpstreamRequest::Typed(TypedOperation::ApiKeyById(v))) && v.id.0 == id,
            ServiceCall::Disk(id) => r matches Ok(UpstreamRequest::Typed(TypedOperation::DiskById(v))) && v.id.0 == id,
            ServiceCall::OidcProvider(id) => r matches Ok(UpstreamRequest::Typed(TypedOperation::OidcProviderById(v))) && v.id.0 == id,
            ServiceCall::UpsDeviceById(id) => r matches Ok(UpstreamRequest::Typed(TypedOperation::UpsDeviceById(v))) && v.id == id,
            ServiceCall::PluginInstallOperation(id) => r matches Ok(UpstreamRequest::Typed(TypedOperation::PluginInstallOperationById(v))) && v.operation_id == id,
            ServiceCall::ValidateOidcSession(id) => r matches Ok(UpstreamRequest::Typed(TypedOperation::ValidateOidcSession(v))) && v.token == id,
            ServiceCall::RecalculateOverview => r matches Ok(UpstreamRequest::Typed(TypedOperation::RecalculateOverview)),
            ServiceCall::DeleteArchivedNotifications => r matches Ok(UpstreamRequest::Typed(TypedOperation::DeleteArchivedNotifications)),
            ServiceCall::ArchiveNotification(id) => r matches Ok(UpstreamRequest::Typed(TypedOperation::ArchiveNotification(v))) && v.id.0 == id,
            ServiceCall::VmStart(id) => r matches Ok(UpstreamRequest::Typed(TypedOperation::VmStart(v))) && v.id.0 == id,
            ServiceCall::VmStop(id) => r matches Ok(UpstreamRequest::Typed(TypedOperation::VmStop(v))) && v.id.0 == id,
            ServiceCall::VmPause(id) => r matches Ok(UpstreamRequest::Typed(TypedOperation::VmPause(v))) && v.id.0 == id,
            ServiceCall::VmResume(id) => r matches Ok(UpstreamRequest::Typed(TypedOperation::VmResume(v))) && v.id.0 == id,
            ServiceCall::VmForceStop(id) => r matches Ok(UpstreamRequest::Typed(TypedOperation::VmForceStop(v))) && v.id.0 == id,
            ServiceCall::VmReboot(id) => r matches Ok(UpstreamRequest::Typed(TypedOperation::VmReboot(v))) && v.id.0 == id,
            ServiceCall::VmReset(id) => r matches Ok(UpstreamRequest::Typed(TypedOperation::VmReset(v))) && v.id.0 == id,
            ServiceCall::DockerStart(id) => r matches Ok(UpstreamRequest::Typed(TypedOperation::DockerStart(v))) && v.id.0 == id,
            ServiceCall::DockerStop(id) => r matches Ok(UpstreamRequest::Typed(TypedOperation::DockerStop(v))) && v.id.0 == id,
            ServiceCall::DockerPause(id) => r matches Ok(UpstreamRequest::Typed(TypedOperation::DockerPause(v))) && v.id.0 == id,
            ServiceCall::DockerUnpause(id) => r matches Ok(UpstreamRequest::Typed(TypedOperation::DockerUnpause(v))) && v.id.0 == id,
            ServiceCall::DockerUpdateContainer(id) => r matches Ok(UpstreamRequest::Typed(TypedOperation::DockerUpdateContainer(v))) && v.id.0 == id,
            ServiceCall::DockerRemoveContainer { id, with_image } => r matches Ok(UpstreamRequest::Typed(TypedOperation::DockerRemoveContainer(v))) && v.id.0 == id && v.with_image == with_image,
            ServiceCall::DockerUpdateAllContainers => r matches Ok(UpstreamRequest::Typed(TypedOperation::DockerUpdateAllContainers)),
            ServiceCall::ArrayAddDiskToArray { id, slot } => r matches Ok(UpstreamRequest::Typed(TypedOperation::ArrayAddDiskToArray(v))) && v.input.id.0 == id && v.input.slot == slot,
            ServiceCall::ArrayRemoveDiskFromArray { id, slot } => r matches Ok(UpstreamRequest::Typed(TypedOperation::ArrayRemoveDiskFromArray(v))) && v.input.id.0 == id && v.input.slot == slot,
            ServiceCall::ArrayMountArrayDisk(id) => r matches Ok(UpstreamRequest::Typed(TypedOperation::ArrayMountArrayDisk(v))) && v.id.0 == id,
            ServiceCall::ArrayUnmountArrayDisk(id) => r matches Ok(UpstreamRequest::Typed(TypedOperation::ArrayUnmountArrayDisk(v))) && v.id.0 == id,
            ServiceCall::ArrayClearArrayDiskStatistics(id) => r matches Ok(UpstreamRequest::Typed(TypedOperation::ArrayClearArrayDiskStatistics(v))) && v.id.0 == id,
            ServiceCall::ParityCheckStart(correct) => r matches Ok(UpstreamRequest::Typed(TypedOperation::ParityCheckStart(v))) && v.correct == correct,
            ServiceCall::ParityCheckPause => r matches Ok(UpstreamRequest::Typed(TypedOperation::ParityCheckPause)),
            ServiceCall::ParityCheckResume => r matches Ok(UpstreamRequest::Typed(TypedOperation::ParityCheckResume)),
            ServiceCall::ParityCheckCancel => r matches Ok(UpstreamRequest::Typed(TypedOperation::ParityCheckCancel)),
            ServiceCall::CreateNotification { title, subject, description, importance, link } => r matches Ok(
                UpstreamRequest::Typed(TypedOperation::CreateNotification(v)),
            ) ==> v.input.title == title && v.input.subject == subject && v.input.description == description
                && v.input.link == link,
            ServiceCall::DockerUpdateContainers(ids) => r matches Ok(
                UpstreamRequest::Typed(TypedOperation::DockerUpdateContainers(v)),
            ) && v.ids@.len() == ids@.len(),
            _ => true,
        },
{
}

/// Caller-controlled values never reach a query document: two calls of the same
/// kind (the same action) send the same document, whatever their arguments.
pub proof fn lemma_query_document_fixed_per_action(c1: ServiceCall, c2: ServiceCall)
    requires
        spec_call_name(c1) == spec_call_name(c2),
    ensures
        spec_query_document(c1) == spec_query_document(c2),
{
}

} // verus!
