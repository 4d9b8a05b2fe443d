//! The library's model of the Unraid GraphQL schema: scalars, enums, the
//! variables of each typed operation, and the shapes of the typed responses.
//!
//! These are plain data types. The wire mapping (field renames, the GraphQL
//! document of each operation) is attached to mirror types at the edge.

use vstd::prelude::*;

verus! {

/// `BigInt` is delivered as a JSON string; keep it a string end to end.
#[derive(Clone, Debug, PartialEq, Eq)]
pub struct BigInt(pub String);

#[derive(Clone, Debug, PartialEq, Eq)]
pub struct PrefixedID(pub String);

#[derive(Clone, Debug, PartialEq, Eq)]
pub struct DateTime(pub String);

#[derive(Debug)]
pub struct FlashQuery {
    pub flash: Flash,
}

#[derive(Debug)]
pub struct Flash {
    pub id: PrefixedID,
    pub vendor: String,
    pub product: String,
}

#[derive(Debug)]
pub struct OnlineQuery {
    pub online: bool,
}

#[derive(Debug)]
pub struct SystemTimeQuery {
    pub system_time: SystemTime,
}

#[derive(Debug)]
pub struct SystemTime {
    pub current_time: String,
    pub time_zone: String,
    pub use_ntp: bool,
    pub ntp_servers: Vec<String>,
}

#[derive(Debug)]
pub struct InstalledPluginsQuery {
    pub installed_unraid_plugins: Vec<String>,
}

#[derive(Debug)]
pub struct ArrayQuery {
    pub array: UnraidArray,
}

#[derive(Debug)]
pub struct UnraidArray {
    pub state: ArrayState,
    pub capacity: ArrayCapacity,
    pub parity_check_status: ParityCheck,
    pub parities: Vec<ArrayDiskParity>,
    pub disks: Vec<ArrayDiskData>,
    pub caches: Vec<ArrayDiskCache>,
}

#[derive(Debug)]
pub struct ArrayCapacity {
    pub kilobytes: Capacity,
    pub disks: Capacity,
}

#[derive(Debug)]
pub struct Capacity {
    pub free: String,
    pub used: String,
    pub total: String,
}

#[derive(Debug)]
pub struct ParityCheck {
    pub status: ParityCheckStatus,
    pub running: Option<bool>,
    pub progress: Option<i32>,
    pub speed: Option<String>,
    pub errors: Option<i32>,
    pub correcting: Option<bool>,
    pub paused: Option<bool>,
}

#[derive(Debug)]
pub struct ArrayDiskParity {
    pub id: PrefixedID,
    pub name: Option<String>,
    pub device: Option<String>,
    pub size: Option<BigInt>,
    pub status: Option<ArrayDiskStatus>,
    pub temp: Option<i32>,
    pub num_errors: Option<BigInt>,
    pub typ: ArrayDiskType,
    pub is_spinning: Option<bool>,
    pub rotational: Option<bool>,
}

#[derive(Debug)]
pub struct ArrayDiskData {
    pub id: PrefixedID,
    pub name: Option<String>,
    pub device: Option<String>,
    pub size: Option<BigInt>,
    pub status: Option<ArrayDiskStatus>,
    pub temp: Option<i32>,
    pub num_errors: Option<BigInt>,
    pub num_reads: Option<BigInt>,
    pub num_writes: Option<BigInt>,
    pub fs_size: Option<BigInt>,
    pub fs_free: Option<BigInt>,
    pub fs_used: Option<BigInt>,
    pub typ: ArrayDiskType,
    pub color: Option<ArrayDiskFsColor>,
    pub is_spinning: Option<bool>,
    pub rotational: Option<bool>,
    pub fs_type: Option<String>,
    pub comment: Option<String>,
}

#[derive(Debug)]
pub struct ArrayDiskCache {
    pub id: PrefixedID,
    pub name: Option<String>,
    pub device: Option<String>,
    pub size: Option<BigInt>,
    pub status: Option<ArrayDiskStatus>,
    pub temp: Option<i32>,
    pub num_errors: Option<BigInt>,
    pub fs_size: Option<BigInt>,
    pub fs_free: Option<BigInt>,
    pub fs_used: Option<BigInt>,
    pub typ: ArrayDiskType,
    pub color: Option<ArrayDiskFsColor>,
    pub is_spinning: Option<bool>,
    pub rotational: Option<bool>,
    pub fs_type: Option<String>,
}

#[derive(Debug)]
pub struct IsSsoEnabledQuery {
    pub is_sso_enabled: bool,
}

#[derive(Debug)]
pub struct PublicOidcProvidersQuery {
    pub public_oidc_providers: Vec<PublicOidcProvider>,
}

/// An OIDC provider as shown on the login page. `id` is a GraphQL `ID`.
#[derive(Debug)]
pub struct PublicOidcProvider {
    pub id: String,
    pub name: String,
    pub button_text: Option<String>,
    pub button_icon: Option<String>,
    pub button_variant: Option<String>,
    pub button_style: Option<String>,
}

#[derive(Debug)]
pub struct OidcProvidersQuery {
    pub oidc_providers: Vec<OidcProvider>,
}

#[derive(Debug)]
pub struct OidcProvider {
    pub id: PrefixedID,
    pub name: String,
    pub client_id: String,
    pub issuer: Option<String>,
    pub authorization_endpoint: Option<String>,
    pub token_endpoint: Option<String>,
    pub jwks_uri: Option<String>,
    pub scopes: Vec<String>,
    pub authorization_rules: Option<Vec<OidcAuthorizationRule>>,
    pub authorization_rule_mode: Option<AuthorizationRuleMode>,
    pub button_text: Option<String>,
    pub button_icon: Option<String>,
    pub button_variant: Option<String>,
}

#[derive(Debug)]
pub struct OidcAuthorizationRule {
    pub claim: String,
    pub operator: AuthorizationOperator,
    pub value: Vec<String>,
}

#[derive(Debug)]
pub struct OidcConfigurationQuery {
    pub oidc_configuration: OidcConfiguration,
}

#[derive(Debug)]
pub struct OidcConfiguration {
    pub providers: Vec<OidcProvider>,
    pub default_allowed_origins: Option<Vec<String>>,
}

#[derive(Debug)]
pub struct ApiKeysQuery {
    pub api_keys: Vec<ApiKey>,
}

#[derive(Debug)]
pub struct ApiKey {
    pub id: PrefixedID,
    pub key: String,
    pub name: String,
    pub description: Option<String>,
    pub roles: Vec<Role>,
    pub created_at: String,
    pub permissions: Vec<Permission>,
}

#[derive(Debug)]
pub struct Permission {
    pub resource: Resource,
    pub actions: Vec<AuthAction>,
}

#[derive(Debug)]
pub struct ApiKeyPossibleRolesQuery {
    pub api_key_possible_roles: Vec<Role>,
}

#[derive(Debug)]
pub struct ApiKeyPossiblePermissionsQuery {
    pub api_key_possible_permissions: Vec<Permission>,
}

#[derive(Debug)]
pub struct AvailableAuthActionsQuery {
    pub get_available_auth_actions: Vec<AuthAction>,
}

#[derive(Clone, Copy, Debug, PartialEq, Eq, Structural)]
pub enum Resource {
    ActivationCode,
    ApiKey,
    Array,
    Cloud,
    Config,
    Connect,
    ConnectRemoteAccess,
    Customizations,
    Dashboard,
    Disk,
    Display,
    Docker,
    Flash,
    Info,
    Logs,
    Me,
    Network,
    Notifications,
    Online,
    Os,
    Owner,
    Permission,
    Registration,
    Servers,
    Services,
    Share,
    Vars,
    Vms,
    Welcome,
}

#[derive(Debug)]
pub struct ConfigQuery {
    pub config: Config,
}

#[derive(Debug)]
pub struct Config {
    pub id: PrefixedID,
    pub valid: Option<bool>,
    pub error: Option<String>,
}

#[derive(Debug)]
pub struct ApiConfig {
    pub version: String,
    pub extra_origins: Vec<String>,
    pub sandbox: Option<bool>,
    pub sso_sub_ids: Vec<String>,
    pub plugins: Vec<String>,
}

#[derive(Debug)]
pub struct DisplayQuery {
    pub display: InfoDisplay,
}

#[derive(Debug)]
pub struct InfoDisplay {
    pub id: PrefixedID,
    pub case: InfoDisplayCase,
    pub theme: ThemeName,
    pub unit: Temperature,
    pub scale: bool,
    pub tabs: bool,
    pub resize: bool,
    pub wwn: bool,
    pub total: bool,
    pub usage: bool,
    pub text: bool,
    pub warning: i32,
    pub critical: i32,
    pub hot: i32,
    pub max: Option<i32>,
    pub locale: Option<String>,
}

#[derive(Debug)]
pub struct InfoDisplayCase {
    pub id: PrefixedID,
    pub url: String,
    pub icon: String,
    pub error: String,
}

#[derive(Debug)]
pub struct CustomizationQuery {
    pub customization: Option<Customization>,
}

#[derive(Debug)]
pub struct Customization {
    pub activation_code: Option<ActivationCode>,
    pub onboarding: Onboarding,
    pub available_languages: Option<Vec<Language>>,
}

#[derive(Debug)]
pub struct ActivationCode {
    pub code: Option<String>,
}

#[derive(Debug)]
pub struct Onboarding {
    pub status: OnboardingStatus,
    pub is_partner_build: bool,
    pub completed: bool,
    pub completed_at_version: Option<String>,
    pub should_open: bool,
}

#[derive(Debug)]
pub struct Language {
    pub code: String,
    pub name: String,
    pub url: Option<String>,
}

#[derive(Debug)]
pub struct InternalBootContextQuery {
    pub internal_boot_context: OnboardingInternalBootContext,
}

#[derive(Debug)]
pub struct OnboardingInternalBootContext {
    pub array_stopped: bool,
    pub boot_eligible: Option<bool>,
    pub booted_from_flash_with_internal_boot_setup: bool,
    pub enable_boot_transfer: Option<String>,
    pub reserved_names: Vec<String>,
    pub share_names: Vec<String>,
    pub pool_names: Vec<String>,
    pub drive_warnings: Vec<OnboardingInternalBootDriveWarning>,
}

#[derive(Debug)]
pub struct OnboardingInternalBootDriveWarning {
    pub disk_id: String,
    pub device: String,
    pub warnings: Vec<String>,
}

/// UI theme names (lowercase on the wire).
#[derive(Clone, Copy, Debug, PartialEq, Eq, Structural)]
pub enum ThemeName {
    Azure,
    Black,
    Gray,
    White,
}

#[derive(Debug)]
pub struct MeQuery {
    pub me: UserAccount,
}

#[derive(Debug)]
pub struct UserAccount {
    pub id: PrefixedID,
    pub name: String,
    pub description: String,
    pub roles: Vec<Role>,
}

#[derive(Debug)]
pub struct OwnerQuery {
    pub owner: Owner,
}

#[derive(Debug)]
pub struct Owner {
    pub username: String,
    pub url: String,
    pub avatar: String,
}

#[derive(Debug)]
pub struct ServersQuery {
    pub servers: Vec<Server>,
}

#[derive(Debug)]
pub struct Server {
    pub id: PrefixedID,
    pub owner: ProfileModel,
    pub guid: String,
    pub name: String,
    pub comment: Option<String>,
    pub status: ServerStatus,
    pub wanip: String,
    pub lanip: String,
    pub localurl: String,
    pub remoteurl: String,
}

#[derive(Debug)]
pub struct ProfileModel {
    pub id: PrefixedID,
    pub username: String,
    pub url: String,
    pub avatar: String,
}

#[derive(Debug)]
pub struct IsFreshInstallQuery {
    pub is_fresh_install: bool,
}

#[derive(Debug)]
pub struct PublicThemeQuery {
    pub public_theme: Theme,
}

#[derive(Debug)]
pub struct Theme {
    pub name: ThemeName,
    pub show_banner_image: bool,
    pub show_banner_gradient: bool,
    pub show_header_description: bool,
    pub header_background_color: Option<String>,
    pub header_primary_text_color: Option<String>,
    pub header_secondary_text_color: Option<String>,
}

#[derive(Debug)]
pub struct NetworkInterfacesQuery {
    pub network_interfaces: Vec<InfoNetworkInterface>,
}

#[derive(Debug)]
pub struct InfoNetworkInterface {
    pub id: PrefixedID,
    pub name: String,
    pub description: Option<String>,
    pub mac_address: Option<String>,
    pub mtu: Option<i32>,
    pub speed: Option<i32>,
    pub duplex: Option<String>,
    pub internal: Option<bool>,
    pub is_virtual: Option<bool>,
    pub operstate: Option<String>,
    pub typ: Option<String>,
    pub vlan_id: Option<i32>,
    pub status: Option<String>,
    pub protocol: Option<String>,
    pub ip_address: Option<String>,
    pub netmask: Option<String>,
    pub gateway: Option<String>,
    pub use_dhcp: Option<bool>,
    pub ipv6_address: Option<String>,
    pub ipv6_netmask: Option<String>,
    pub ipv6_gateway: Option<String>,
    pub use_dhcp6: Option<bool>,
}

#[derive(Debug)]
pub struct TimeZoneOptionsQuery {
    pub time_zone_options: Vec<TimeZoneOption>,
}

#[derive(Debug)]
pub struct TimeZoneOption {
    pub value: String,
    pub label: String,
}

#[derive(Debug)]
pub struct CloudQuery {
    pub cloud: Cloud,
}

#[derive(Debug)]
pub struct Cloud {
    pub error: Option<String>,
    pub api_key: ApiKeyResponse,
    pub relay: Option<RelayResponse>,
    pub minigraphql: MinigraphqlResponse,
    pub cloud: CloudResponse,
    pub allowed_origins: Vec<String>,
}

#[derive(Debug)]
pub struct ApiKeyResponse {
    pub valid: bool,
    pub error: Option<String>,
}

#[derive(Debug)]
pub struct RelayResponse {
    pub status: String,
    pub timeout: Option<String>,
    pub error: Option<String>,
}

#[derive(Debug)]
pub struct MinigraphqlResponse {
    pub status: MinigraphStatus,
    pub timeout: Option<i32>,
    pub error: Option<String>,
}

#[derive(Debug)]
pub struct CloudResponse {
    pub status: String,
    pub ip: Option<String>,
    pub error: Option<String>,
}

#[derive(Debug)]
pub struct PrefixedIdVars {
    pub id: PrefixedID,
}

#[derive(Debug)]
pub struct StringIdVars {
    pub id: String,
}

/// The variables of an operation addressed by a plugin install operation's
/// GraphQL `ID`.
#[derive(Debug)]
pub struct OperationIdVars {
    pub operation_id: String,
}

#[derive(Debug)]
pub struct PluginInstallOperationsQuery {
    pub plugin_install_operations: Vec<PluginInstallOperation>,
}

#[derive(Debug)]
pub struct PluginInstallOperationByIdQuery {
    pub plugin_install_operation: Option<PluginInstallOperation>,
}

/// A plugin installation and its progress. `id` is a GraphQL `ID`.
#[derive(Debug)]
pub struct PluginInstallOperation {
    pub id: String,
    pub url: String,
    pub name: Option<String>,
    pub status: PluginInstallStatus,
    pub created_at: DateTime,
    pub updated_at: Option<DateTime>,
    pub finished_at: Option<DateTime>,
    pub output: Vec<String>,
}

#[derive(Debug)]
pub struct TokenVars {
    pub token: String,
}

#[derive(Debug)]
pub struct RolesVars {
    pub roles: Vec<Role>,
}

#[derive(Debug)]
pub struct ApiKeyByIdQuery {
    pub api_key: Option<ApiKey>,
}

#[derive(Debug)]
pub struct OidcProviderByIdQuery {
    pub oidc_provider: Option<OidcProvider>,
}

#[derive(Debug)]
pub struct UpsBattery {
    pub charge_level: i32,
    pub estimated_runtime: i32,
    pub health: String,
}

#[derive(Debug)]
pub struct ValidateOidcSessionQuery {
    pub validate_oidc_session: OidcSessionValidation,
}

#[derive(Debug)]
pub struct OidcSessionValidation {
    pub valid: bool,
    pub username: Option<String>,
}

#[derive(Debug)]
pub struct PermissionsForRolesQuery {
    pub get_permissions_for_roles: Vec<Permission>,
}

#[derive(Debug)]
pub struct Notification {
    pub id: PrefixedID,
    pub title: String,
    pub subject: String,
    pub description: String,
    pub importance: NotificationImportance,
    pub link: Option<String>,
    pub typ: NotificationType,
    pub timestamp: Option<String>,
    pub formatted_timestamp: Option<String>,
}

#[derive(Debug)]
pub struct NotificationOverview {
    pub unread: NotificationCounts,
    pub archive: NotificationCounts,
}

#[derive(Debug)]
pub struct NotificationCounts {
    pub info: i32,
    pub warning: i32,
    pub alert: i32,
    pub total: i32,
}

#[derive(Debug)]
pub struct NotificationData {
    pub title: String,
    pub subject: String,
    pub description: String,
    pub importance: NotificationImportance,
    pub link: Option<String>,
}

#[derive(Debug)]
pub struct CreateNotificationVars {
    pub input: NotificationData,
}

#[derive(Debug)]
pub struct CreateNotificationMutation {
    pub create_notification: Notification,
}

#[derive(Debug)]
pub struct ArchiveNotificationMutation {
    pub archive_notification: Notification,
}

#[derive(Debug)]
pub struct RecalculateOverviewMutation {
    pub recalculate_overview: NotificationOverview,
}

#[derive(Debug)]
pub struct DeleteArchivedNotificationsMutation {
    pub delete_archived_notifications: NotificationOverview,
}

#[derive(Debug)]
pub struct VmIdVars {
    pub id: PrefixedID,
}

#[derive(Debug)]
pub struct VmStartMutation {
    pub vm: VmStartNs,
}

#[derive(Debug)]
pub struct VmStartNs {
    pub start: bool,
}

#[derive(Debug)]
pub struct VmStopMutation {
    pub vm: VmStopNs,
}

#[derive(Debug)]
pub struct VmStopNs {
    pub stop: bool,
}

#[derive(Debug)]
pub struct VmPauseMutation {
    pub vm: VmPauseNs,
}

#[derive(Debug)]
pub struct VmPauseNs {
    pub pause: bool,
}

#[derive(Debug)]
pub struct VmResumeMutation {
    pub vm: VmResumeNs,
}

#[derive(Debug)]
pub struct VmResumeNs {
    pub resume: bool,
}

#[derive(Debug)]
pub struct VmForceStopMutation {
    pub vm: VmForceStopNs,
}

#[derive(Debug)]
pub struct VmForceStopNs {
    pub force_stop: bool,
}

#[derive(Debug)]
pub struct VmRebootMutation {
    pub vm: VmRebootNs,
}

#[derive(Debug)]
pub struct VmRebootNs {
    pub reboot: bool,
}

#[derive(Debug)]
pub struct VmResetMutation {
    pub vm: VmResetNs,
}

#[derive(Debug)]
pub struct VmResetNs {
    pub reset: bool,
}

/// Partial selection of `DockerContainer` returned by the lifecycle mutations.
#[derive(Debug)]
pub struct DockerContainerRef {
    pub id: PrefixedID,
    pub names: Vec<String>,
    pub image: String,
    pub state: ContainerState,
    pub status: String,
}

/// Single-id arg shared by start/stop/pause/unpause/updateContainer.
#[derive(Debug)]
pub struct DockerIdVars {
    pub id: PrefixedID,
}

/// removeContainer(id, withImage): id required, withImage nullable Boolean.
#[derive(Debug)]
pub struct DockerRemoveVars {
    pub id: PrefixedID,
    pub with_image: Option<bool>,
}

/// updateContainers(ids: [PrefixedID!]!).
#[derive(Debug)]
pub struct DockerIdsVars {
    pub ids: Vec<PrefixedID>,
}

#[derive(Debug)]
pub struct DockerStartMutation {
    pub docker: DockerStartNs,
}

#[derive(Debug)]
pub struct DockerStartNs {
    pub start: DockerContainerRef,
}

#[derive(Debug)]
pub struct DockerStopMutation {
    pub docker: DockerStopNs,
}

#[derive(Debug)]
pub struct DockerStopNs {
    pub stop: DockerContainerRef,
}

#[derive(Debug)]
pub struct DockerPauseMutation {
    pub docker: DockerPauseNs,
}

#[derive(Debug)]
pub struct DockerPauseNs {
    pub pause: DockerContainerRef,
}

#[derive(Debug)]
pub struct DockerUnpauseMutation {
    pub docker: DockerUnpauseNs,
}

#[derive(Debug)]
pub struct DockerUnpauseNs {
    pub unpause: DockerContainerRef,
}

#[derive(Debug)]
pub struct DockerRemoveContainerMutation {
    pub docker: DockerRemoveContainerNs,
}

#[derive(Debug)]
pub struct DockerRemoveContainerNs {
    pub remove_container: bool,
}

#[derive(Debug)]
pub struct DockerUpdateContainerMutation {
    pub docker: DockerUpdateContainerNs,
}

#[derive(Debug)]
pub struct DockerUpdateContainerNs {
    pub update_container: DockerContainerRef,
}

#[derive(Debug)]
pub struct DockerUpdateContainersMutation {
    pub docker: DockerUpdateContainersNs,
}

#[derive(Debug)]
pub struct DockerUpdateContainersNs {
    pub update_containers: Vec<DockerContainerRef>,
}

#[derive(Debug)]
pub struct DockerUpdateAllContainersMutation {
    pub docker: DockerUpdateAllContainersNs,
}

#[derive(Debug)]
pub struct DockerUpdateAllContainersNs {
    pub update_all_containers: Vec<DockerContainerRef>,
}

/// Minimal `UnraidArray` selection for mutation results ({ id state }).
#[derive(Debug)]
pub struct UnraidArrayRef {
    pub id: PrefixedID,
    pub state: ArrayState,
}

/// Minimal `ArrayDisk` selection for mount/unmount results ({ id name status }).
#[derive(Debug)]
pub struct ArrayDiskRef {
    pub id: PrefixedID,
    pub name: Option<String>,
    pub status: Option<ArrayDiskStatus>,
}

#[derive(Debug)]
pub struct ArrayStateInput {
    pub desired_state: ArrayStateInputState,
}

#[derive(Debug)]
pub struct ArrayDiskInput {
    pub id: PrefixedID,
    pub slot: Option<i32>,
}

#[derive(Debug)]
pub struct ArrayStateInputVars {
    pub input: ArrayStateInput,
}

#[derive(Debug)]
pub struct ArrayDiskInputVars {
    pub input: ArrayDiskInput,
}

#[derive(Debug)]
pub struct ArrayDiskIdVars {
    pub id: PrefixedID,
}

#[derive(Debug)]
pub struct ArraySetStateMutation {
    pub array: ArraySetStateNs,
}

#[derive(Debug)]
pub struct ArraySetStateNs {
    pub set_state: UnraidArrayRef,
}

#[derive(Debug)]
pub struct ArrayAddDiskToArrayMutation {
    pub array: ArrayAddDiskToArrayNs,
}

#[derive(Debug)]
pub struct ArrayAddDiskToArrayNs {
    pub add_disk_to_array: UnraidArrayRef,
}

#[derive(Debug)]
pub struct ArrayRemoveDiskFromArrayMutation {
    pub array: ArrayRemoveDiskFromArrayNs,
}

#[derive(Debug)]
pub struct ArrayRemoveDiskFromArrayNs {
    pub remove_disk_from_array: UnraidArrayRef,
}

#[derive(Debug)]
pub struct ArrayMountArrayDiskMutation {
    pub array: ArrayMountArrayDiskNs,
}

#[derive(Debug)]
pub struct ArrayMountArrayDiskNs {
    pub mount_array_disk: ArrayDiskRef,
}

#[derive(Debug)]
pub struct ArrayUnmountArrayDiskMutation {
    pub array: ArrayUnmountArrayDiskNs,
}

#[derive(Debug)]
pub struct ArrayUnmountArrayDiskNs {
    pub unmount_array_disk: ArrayDiskRef,
}

#[derive(Debug)]
pub struct ArrayClearArrayDiskStatisticsMutation {
    pub array: ArrayClearArrayDiskStatisticsNs,
}

#[derive(Debug)]
pub struct ArrayClearArrayDiskStatisticsNs {
    pub clear_array_disk_statistics: bool,
}

#[derive(Debug)]
pub struct ParityCheckStartVars {
    pub correct: bool,
}

#[derive(Clone, Copy, Debug, PartialEq, Eq, Structural)]
pub enum ArrayState {
    Started,
    Stopped,
    NewArray,
    ReconDisk,
    DisableDisk,
    SwapDsbl,
    InvalidExpansion,
    ParityNotBiggest,
    TooManyMissingDisks,
    NewDiskTooSmall,
    NoDataDisks,
}

#[derive(Clone, Copy, Debug, PartialEq, Eq, Structural)]
pub enum ParityCheckStatus {
    NeverRun,
    Running,
    Paused,
    Completed,
    Cancelled,
    Failed,
}

#[derive(Clone, Copy, Debug, PartialEq, Eq, Structural)]
pub enum ArrayDiskStatus {
    DiskNp,
    DiskOk,
    DiskNpMissing,
    DiskInvalid,
    DiskWrong,
    DiskDsbl,
    DiskNpDsbl,
    DiskDsblNew,
    DiskNew,
}

#[derive(Clone, Copy, Debug, PartialEq, Eq, Structural)]
pub enum ArrayDiskType {
    Data,
    Parity,
    Boot,
    Flash,
    Cache,
}

#[derive(Clone, Copy, Debug, PartialEq, Eq, Structural)]
pub enum ArrayDiskFsColor {
    GreenOn,
    GreenBlink,
    BlueOn,
    BlueBlink,
    YellowOn,
    YellowBlink,
    RedOn,
    RedOff,
    GreyOff,
}

#[derive(Clone, Copy, Debug, PartialEq, Eq, Structural)]
pub enum AuthorizationOperator {
    Equals,
    Contains,
    EndsWith,
    StartsWith,
}

#[derive(Clone, Copy, Debug, PartialEq, Eq, Structural)]
pub enum AuthorizationRuleMode {
    Or,
    And,
}

#[derive(Clone, Copy, Debug, PartialEq, Eq, Structural)]
pub enum Role {
    Admin,
    Connect,
    Guest,
    Viewer,
}

#[derive(Clone, Copy, Debug, PartialEq, Eq, Structural)]
pub enum AuthAction {
    CreateAny,
    CreateOwn,
    ReadAny,
    ReadOwn,
    UpdateAny,
    UpdateOwn,
    DeleteAny,
    DeleteOwn,
}

#[derive(Clone, Copy, Debug, PartialEq, Eq, Structural)]
pub enum OnboardingStatus {
    Incomplete,
    Upgrade,
    Downgrade,
    Completed,
}

#[derive(Clone, Copy, Debug, PartialEq, Eq, Structural)]
pub enum Temperature {
    Celsius,
    Fahrenheit,
}

#[derive(Clone, Copy, Debug, PartialEq, Eq, Structural)]
pub enum ServerStatus {
    Online,
    Offline,
    NeverConnected,
}

#[derive(Clone, Copy, Debug, PartialEq, Eq, Structural)]
pub enum MinigraphStatus {
    PreInit,
    Connecting,
    Connected,
    PingFailure,
    ErrorRetrying,
}

#[derive(Clone, Copy, Debug, PartialEq, Eq, Structural)]
pub enum NotificationImportance {
    Alert,
    Info,
    Warning,
}

#[derive(Clone, Copy, Debug, PartialEq, Eq, Structural)]
pub enum NotificationType {
    Unread,
    Archive,
}

#[derive(Clone, Copy, Debug, PartialEq, Eq, Structural)]
pub enum ContainerState {
    Running,
    Paused,
    Exited,
}

#[derive(Clone, Copy, Debug, PartialEq, Eq, Structural)]
pub enum ArrayStateInputState {
    Start,
    Stop,
}

#[derive(Clone, Copy, Debug, PartialEq, Eq, Structural)]
pub enum DiskInterfaceType {
    Sas,
    Sata,
    Usb,
    Pcie,
    Unknown,
}

#[derive(Clone, Copy, Debug, PartialEq, Eq, Structural)]
pub enum DiskSmartStatus {
    /// `OK` on the wire.
    Healthy,
    Unknown,
}

#[derive(Clone, Copy, Debug, PartialEq, Eq, Structural)]
pub enum DiskFsType {
    Xfs,
    Btrfs,
    Vfat,
    Zfs,
    Ext4,
    Ntfs,
}

#[derive(Clone, Copy, Debug, PartialEq, Eq, Structural)]
pub enum PluginInstallStatus {
    Failed,
    Queued,
    Running,
    Succeeded,
}

} // verus!
