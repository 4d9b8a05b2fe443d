//! Planning of an `unraid` tool call: from the action name and its arguments to
//! the service call to make (and how to page its result), or the
//! `invalid_params` error the caller can correct.
//!
//! Executing the plan (the upstream call, the observability counters, pagination
//! of the returned JSON) happens at the edge; every decision is taken here.

use vstd::prelude::*;
use crate::actions::{spec_action_names, spec_actions, valid_actions_text};
use crate::args::{
    ArgValue, ToolArgs, spec_get, spec_bool_arg, spec_i64_arg, spec_i64_value, spec_string_arg, spec_string_list_arg,
    spec_usize_arg,
};
use crate::requests::{
    invalid_desired_state_message, invalid_importance_message, invalid_role_message, parse_array_state_input,
    parse_notification_importance, parse_roles, spec_array_state_input, spec_invalid_desired_state_message,
    spec_invalid_importance_message, spec_invalid_role_message, spec_notification_importance, spec_roles,
    request_is, UpstreamRequest,
};
use crate::upstream::UpstreamError;
use crate::service::{ServiceCall, spec_call_argument, spec_call_name};
use crate::text::{concat3, join, str_eq, str_views};
use crate::tools::ToolError;

verus! {

/// A list inside a response that the dispatcher pages through.
#[derive(Clone, Copy, Debug, PartialEq, Eq, Structural)]
pub enum ListField {
    /// `docker.containers`
    DockerContainers,
    /// `vms.domains`
    VmDomains,
    /// `shares`
    Shares,
    /// `notifications.warningsAndAlerts`
    NotificationAlerts,
    /// `logFiles`
    LogFiles,
    /// `services`
    Services,
    /// `upsDevices`
    UpsDevices,
    /// `plugins`
    Plugins,
    /// `parityHistory`
    ParityHistory,
}

/// The JSON path of a list within its response.
pub open spec fn spec_list_path(l: ListField) -> Seq<&'static str> {
    match l {
        ListField::DockerContainers => seq!["docker", "containers"],
        ListField::VmDomains => seq!["vms", "domains"],
        ListField::Shares => seq!["shares"],
        ListField::NotificationAlerts => seq!["notifications", "warningsAndAlerts"],
        ListField::LogFiles => seq!["logFiles"],
        ListField::Services => seq!["services"],
        ListField::UpsDevices => seq!["upsDevices"],
        ListField::Plugins => seq!["plugins"],
        ListField::ParityHistory => seq!["parityHistory"],
    }
}

/// The argument (and item field) a list can be filtered by: docker containers
/// by `state`, shares and plugins by `name`; other lists take no filter.
pub open spec fn spec_filter_key(l: ListField) -> Option<&'static str> {
    match l {
        ListField::DockerContainers => Some("state"),
        ListField::Shares => Some("name"),
        ListField::Plugins => Some("name"),
        _ => None,
    }
}

/// The service call whose response holds a list.
pub open spec fn spec_list_call(l: ListField) -> ServiceCall {
    match l {
        ListField::DockerContainers => ServiceCall::Docker,
        ListField::VmDomains => ServiceCall::Vms,
        ListField::Shares => ServiceCall::Shares,
        ListField::NotificationAlerts => ServiceCall::Notifications,
        ListField::LogFiles => ServiceCall::LogFiles,
        ListField::Services => ServiceCall::Services,
        ListField::UpsDevices => ServiceCall::Ups,
        ListField::Plugins => ServiceCall::Plugins,
        ListField::ParityHistory => ServiceCall::ParityHistory,
    }
}

impl ListField {
    /// The JSON path of this list within its response.
    pub fn path(&self) -> (r: Vec<&'static str>)
        ensures
            r@ == spec_list_path(*self),
    {
        let r = match self {
            ListField::DockerContainers => vec!["docker", "containers"],
            ListField::VmDomains => vec!["vms", "domains"],
            ListField::Shares => vec!["shares"],
            ListField::NotificationAlerts => vec!["notifications", "warningsAndAlerts"],
            ListField::LogFiles => vec!["logFiles"],
            ListField::Services => vec!["services"],
            ListField::UpsDevices => vec!["upsDevices"],
            ListField::Plugins => vec!["plugins"],
            ListField::ParityHistory => vec!["parityHistory"],
        };
        assert(r@ =~= spec_list_path(*self));
        r
    }

    /// The argument and item field this list can be filtered by.
    pub fn filter_key(&self) -> (r: Option<&'static str>)
        ensures
            r == spec_filter_key(*self),
    {
        match self {
            ListField::DockerContainers => Some("state"),
            ListField::Shares => Some("name"),
            ListField::Plugins => Some("name"),
            _ => None,
        }
    }

    /// The service call whose response holds this list.
    pub fn call(&self) -> (r: ServiceCall)
        ensures
            r == spec_list_call(*self),
    {
        match self {
            ListField::DockerContainers => ServiceCall::Docker,
            ListField::VmDomains => ServiceCall::Vms,
            ListField::Shares => ServiceCall::Shares,
            ListField::NotificationAlerts => ServiceCall::Notifications,
            ListField::LogFiles => ServiceCall::LogFiles,
            ListField::Services => ServiceCall::Services,
            ListField::UpsDevices => ServiceCall::Ups,
            ListField::Plugins => ServiceCall::Plugins,
            ListField::ParityHistory => ServiceCall::ParityHistory,
        }
    }
}

/// How to page the list in a response.
#[derive(Clone, Debug, PartialEq, Eq)]
pub struct PageRequest {
    pub list: ListField,
    /// At most this many items (50 by default, capped at 200).
    pub limit: usize,
    /// Skip this many items first.
    pub offset: usize,
    /// Keep only the items whose filter field contains this text.
    pub filter: Option<String>,
}

/// What a tool call does.
#[derive(Clone, Debug, PartialEq, Eq)]
pub enum ActionPlan {
    /// Make a service call, then page its result when `page` is given.
    Call { call: ServiceCall, page: Option<PageRequest> },
    /// Report local runtime state and counters.
    Status,
    /// Return the help text.
    Help,
}

/// What planning a tool call yields.
pub enum PlanOutcome {
    /// A plan whose call holds no list argument.
    Ready(ActionPlan),
    /// `get_permissions_for_roles` with these roles.
    Roles(Seq<String>),
    /// `docker_update_containers` with these container ids.
    Ids(Seq<String>),
    /// An `invalid_params` error with this message.
    Invalid(Seq<char>),
}

/// The limit applied when paging: 50 by default, at most 200.
pub open spec fn spec_page_limit(l: Option<usize>) -> usize {
    let v = match l {
        Some(v) => v,
        None => 50usize,
    };
    if v < 200 {
        v
    } else {
        200
    }
}

/// The calls that take no argument and are not paged.
pub open spec fn spec_simple_call(a: Seq<char>) -> Option<ServiceCall> {
    if a == "array"@ {
        Some(ServiceCall::Array)
    } else if a == "disks"@ {
        Some(ServiceCall::Disks)
    } else if a == "server"@ {
        Some(ServiceCall::Server)
    } else if a == "info"@ {
        Some(ServiceCall::Info)
    } else if a == "network"@ {
        Some(ServiceCall::Network)
    } else if a == "ups_config"@ {
        Some(ServiceCall::UpsConfig)
    } else if a == "metrics"@ {
        Some(ServiceCall::Metrics)
    } else if a == "vars"@ {
        Some(ServiceCall::Vars)
    } else if a == "registration"@ {
        Some(ServiceCall::Registration)
    } else if a == "flash"@ {
        Some(ServiceCall::Flash)
    } else if a == "rclone"@ {
        Some(ServiceCall::Rclone)
    } else if a == "remote_access"@ {
        Some(ServiceCall::RemoteAccess)
    } else if a == "connect"@ {
        Some(ServiceCall::Connect)
    } else if a == "online"@ {
        Some(ServiceCall::Online)
    } else if a == "system_time"@ {
        Some(ServiceCall::SystemTime)
    } else if a == "installed_unraid_plugins"@ {
        Some(ServiceCall::InstalledUnraidPlugins)
    } else if a == "is_sso_enabled"@ {
        Some(ServiceCall::IsSsoEnabled)
    } else if a == "public_oidc_providers"@ {
        Some(ServiceCall::PublicOidcProviders)
    } else if a == "oidc_providers"@ {
        Some(ServiceCall::OidcProviders)
    } else if a == "oidc_configuration"@ {
        Some(ServiceCall::OidcConfiguration)
    } else if a == "api_keys"@ {
        Some(ServiceCall::ApiKeys)
    } else if a == "api_key_possible_roles"@ {
        Some(ServiceCall::ApiKeyPossibleRoles)
    } else if a == "api_key_possible_permissions"@ {
        Some(ServiceCall::ApiKeyPossiblePermissions)
    } else if a == "get_available_auth_actions"@ {
        Some(ServiceCall::GetAvailableAuthActions)
    } else if a == "get_api_key_creation_form_schema"@ {
        Some(ServiceCall::GetApiKeyCreationFormSchema)
    } else if a == "config"@ {
        Some(ServiceCall::Config)
    } else if a == "settings"@ {
        Some(ServiceCall::Settings)
    } else if a == "display"@ {
        Some(ServiceCall::Display)
    } else if a == "customization"@ {
        Some(ServiceCall::Customization)
    } else if a == "internal_boot_context"@ {
        Some(ServiceCall::InternalBootContext)
    } else if a == "me"@ {
        Some(ServiceCall::Me)
    } else if a == "owner"@ {
        Some(ServiceCall::Owner)
    } else if a == "servers"@ {
        Some(ServiceCall::Servers)
    } else if a == "is_fresh_install"@ {
        Some(ServiceCall::IsFreshInstall)
    } else if a == "public_theme"@ {
        Some(ServiceCall::PublicTheme)
    } else if a == "network_interfaces"@ {
        Some(ServiceCall::NetworkInterfaces)
    } else if a == "time_zone_options"@ {
        Some(ServiceCall::TimeZoneOptions)
    } else if a == "assignable_disks"@ {
        Some(ServiceCall::AssignableDisks)
    } else if a == "plugin_install_operations"@ {
        Some(ServiceCall::PluginInstallOperations)
    } else if a == "cloud"@ {
        Some(ServiceCall::Cloud)
    } else if a == "recalculate_overview"@ {
        Some(ServiceCall::RecalculateOverview)
    } else if a == "delete_archived_notifications"@ {
        Some(ServiceCall::DeleteArchivedNotifications)
    } else if a == "docker_update_all_containers"@ {
        Some(ServiceCall::DockerUpdateAllContainers)
    } else if a == "parity_check_pause"@ {
        Some(ServiceCall::ParityCheckPause)
    } else if a == "parity_check_resume"@ {
        Some(ServiceCall::ParityCheckResume)
    } else if a == "parity_check_cancel"@ {
        Some(ServiceCall::ParityCheckCancel)
    } else {
        None
    }
}

/// The actions whose result is a paged list.
pub open spec fn spec_paged_list(a: Seq<char>) -> Option<ListField> {
    if a == "docker"@ {
        Some(ListField::DockerContainers)
    } else if a == "vms"@ {
        Some(ListField::VmDomains)
    } else if a == "shares"@ {
        Some(ListField::Shares)
    } else if a == "notifications"@ {
        Some(ListField::NotificationAlerts)
    } else if a == "log_files"@ {
        Some(ListField::LogFiles)
    } else if a == "services"@ {
        Some(ListField::Services)
    } else if a == "ups"@ {
        Some(ListField::UpsDevices)
    } else if a == "plugins"@ {
        Some(ListField::Plugins)
    } else if a == "parity_history"@ {
        Some(ListField::ParityHistory)
    } else {
        None
    }
}

/// The calls that take a single required `id` argument.
pub open spec fn spec_id_call(a: Seq<char>, id: String) -> Option<ServiceCall> {
    if a == "api_key"@ {
        Some(ServiceCall::ApiKey(id))
    } else if a == "disk"@ {
        Some(ServiceCall::Disk(id))
    } else if a == "oidc_provider"@ {
        Some(ServiceCall::OidcProvider(id))
    } else if a == "ups_device_by_id"@ {
        Some(ServiceCall::UpsDeviceById(id))
    } else if a == "plugin_install_operation"@ {
        Some(ServiceCall::PluginInstallOperation(id))
    } else if a == "archive_notification"@ {
        Some(ServiceCall::ArchiveNotification(id))
    } else if a == "vm_start"@ {
        Some(ServiceCall::VmStart(id))
    } else if a == "vm_stop"@ {
        Some(ServiceCall::VmStop(id))
    } else if a == "vm_pause"@ {
        Some(ServiceCall::VmPause(id))
    } else if a == "vm_resume"@ {
        Some(ServiceCall::VmResume(id))
    } else if a == "vm_force_stop"@ {
        Some(ServiceCall::VmForceStop(id))
    } else if a == "vm_reboot"@ {
        Some(ServiceCall::VmReboot(id))
    } else if a == "vm_reset"@ {
        Some(ServiceCall::VmReset(id))
    } else if a == "docker_start"@ {
        Some(ServiceCall::DockerStart(id))
    } else if a == "docker_stop"@ {
        Some(ServiceCall::DockerStop(id))
    } else if a == "docker_pause"@ {
        Some(ServiceCall::DockerPause(id))
    } else if a == "docker_unpause"@ {
        Some(ServiceCall::DockerUnpause(id))
    } else if a == "docker_update_container"@ {
        Some(ServiceCall::DockerUpdateContainer(id))
    } else if a == "array_mount_array_disk"@ {
        Some(ServiceCall::ArrayMountArrayDisk(id))
    } else if a == "array_unmount_array_disk"@ {
        Some(ServiceCall::ArrayUnmountArrayDisk(id))
    } else if a == "array_clear_array_disk_statistics"@ {
        Some(ServiceCall::ArrayClearArrayDiskStatistics(id))
    } else {
        None
    }
}

/// Whether `a` is an action that takes a single required `id` argument.
pub open spec fn spec_is_id_action(a: Seq<char>) -> bool {
    a == "api_key"@
        || a == "disk"@
        || a == "oidc_provider"@
        || a == "ups_device_by_id"@
        || a == "plugin_install_operation"@
        || a == "archive_notification"@
        || a == "vm_start"@
        || a == "vm_stop"@
        || a == "vm_pause"@
        || a == "vm_resume"@
        || a == "vm_force_stop"@
        || a == "vm_reboot"@
        || a == "vm_reset"@
        || a == "docker_start"@
        || a == "docker_stop"@
        || a == "docker_pause"@
        || a == "docker_unpause"@
        || a == "docker_update_container"@
        || a == "array_mount_array_disk"@
        || a == "array_unmount_array_disk"@
        || a == "array_clear_array_disk_statistics"@
}

/// The message for a missing required argument.
pub open spec fn spec_required_message(arg: Seq<char>, action: Seq<char>) -> Seq<char> {
    "\""@ + arg + "\" is required for action="@ + action + "."@
}

/// The message for a missing `id` in `docker_logs`.
pub open spec fn spec_docker_logs_id_message() -> Seq<char> {
    "\"id\" is required for action=docker_logs.\nHint: call action=docker first to list available container IDs.\nExample: {\"action\": \"docker_logs\", \"id\": \"<container_id>\", \"tail\": 100}"@
}

/// The message for a missing `path` in `log_file`.
pub open spec fn spec_log_file_path_message() -> Seq<char> {
    "\"path\" is required for action=log_file.\nHint: call action=log_files first to list available log file paths.\nExample: {\"action\": \"log_file\", \"path\": \"/var/log/syslog\", \"lines\": 100}"@
}

/// The message for missing `roles` in `get_permissions_for_roles`.
pub open spec fn spec_roles_message() -> Seq<char> {
    "\"roles\" (a non-empty array of role names) is required for action=get_permissions_for_roles."@
}

/// The message for missing `ids` in `docker_update_containers`.
pub open spec fn spec_ids_message() -> Seq<char> {
    "\"ids\" (non-empty array) is required for action=docker_update_containers."@
}

/// The message for a missing `desired_state` in `array_set_state`.
pub open spec fn spec_desired_state_message() -> Seq<char> {
    "\"desired_state\" (START/STOP) is required for action=array_set_state."@
}

/// The comma-separated list of valid actions.
pub open spec fn spec_valid_actions() -> Seq<char> {
    join(str_views(spec_action_names()), ", "@)
}

/// The message for an unknown action.
pub open spec fn spec_unknown_action_message(a: Seq<char>) -> Seq<char> {
    "unknown unraid action: \""@ + a + "\"\nValid actions: "@ + spec_valid_actions()
        + "\nSee: action=help for full documentation."@
}

/// The message for a call without an `action`.
pub open spec fn spec_action_required_message() -> Seq<char> {
    "\"action\" is required.\nValid actions: "@ + spec_valid_actions()
        + "\nExample: {\"action\": \"docker\"}\nSee: action=help for full documentation."@
}

/// The message for a tool other than `unraid`.
pub open spec fn spec_unknown_tool_message(name: Seq<char>) -> Seq<char> {
    "unknown tool: "@ + name + "\nHint: the only supported tool is \"unraid\".\nUse action=help for documentation."@
}

/// The plan for a paged list action: `limit` then `offset` are read (either can
/// be malformed), the list's filter argument is taken as given.
pub open spec fn spec_page_plan(l: ListField, args: ToolArgs) -> PlanOutcome {
    match spec_usize_arg(args, "limit"@) {
        Err(m) => PlanOutcome::Invalid(m),
        Ok(limit) => match spec_usize_arg(args, "offset"@) {
            Err(m) => PlanOutcome::Invalid(m),
            Ok(offset) => PlanOutcome::Ready(
                ActionPlan::Call {
                    call: spec_list_call(l),
                    page: Some(
                        PageRequest {
                            list: l,
                            limit: spec_page_limit(limit),
                            offset: match offset {
                                Some(o) => o,
                                None => 0usize,
                            },
                            filter: match spec_filter_key(l) {
                                Some(k) => spec_string_arg(args, k@),
                                None => None,
                            },
                        },
                    ),
                },
            ),
        },
    }
}

/// A plan that makes `call` with no paging.
pub open spec fn spec_call_plan(call: ServiceCall) -> PlanOutcome {
    PlanOutcome::Ready(ActionPlan::Call { call, page: None })
}

/// The plan for `create_notification`: the four text fields are required, in
/// order, and the importance must be one of its wire names; `link` is optional.
pub open spec fn spec_create_notification_plan(args: ToolArgs) -> PlanOutcome {
    let a = "create_notification"@;
    match spec_string_arg(args, "title"@) {
        None => PlanOutcome::Invalid(spec_required_message("title"@, a)),
        Some(title) => match spec_string_arg(args, "subject"@) {
            None => PlanOutcome::Invalid(spec_required_message("subject"@, a)),
            Some(subject) => match spec_string_arg(args, "description"@) {
                None => PlanOutcome::Invalid(spec_required_message("description"@, a)),
                Some(description) => match spec_string_arg(args, "importance"@) {
                    None => PlanOutcome::Invalid(spec_required_message("importance"@, a)),
                    Some(importance) => if spec_notification_importance(importance@) is None {
                        PlanOutcome::Invalid(spec_invalid_importance_message(importance@))
                    } else {
                        spec_call_plan(
                        ServiceCall::CreateNotification {
                            title,
                            subject,
                            description,
                            importance,
                            link: spec_string_arg(args, "link"@),
                        },
                    )
                    },
                },
            },
        },
    }
}

/// The optional array slot argument, truncated to `i32`.
pub open spec fn spec_slot(args: ToolArgs) -> Option<i32> {
    match spec_i64_value(args, "slot"@) {
        Some(n) => Some(n as i32),
        None => None,
    }
}

/// The plan for action `a` with arguments `args`.
pub open spec fn spec_plan_action(a: Seq<char>, args: ToolArgs) -> PlanOutcome {
    if spec_simple_call(a) is Some {
        spec_call_plan(spec_simple_call(a)->0)
    } else if spec_paged_list(a) is Some {
        spec_page_plan(spec_paged_list(a)->0, args)
    } else if spec_is_id_action(a) {
        match spec_string_arg(args, "id"@) {
            None => PlanOutcome::Invalid(spec_required_message("id"@, a)),
            Some(id) => spec_call_plan(spec_id_call(a, id)->0),
        }
    } else if a == "docker_logs"@ {
        match spec_string_arg(args, "id"@) {
            None => PlanOutcome::Invalid(spec_docker_logs_id_message()),
            Some(id) => match spec_i64_arg(args, "tail"@) {
                Err(m) => PlanOutcome::Invalid(m),
                Ok(tail) => spec_call_plan(ServiceCall::DockerLogs { id, tail }),
            },
        }
    } else if a == "log_file"@ {
        match spec_string_arg(args, "path"@) {
            None => PlanOutcome::Invalid(spec_log_file_path_message()),
            Some(path) => match spec_i64_arg(args, "lines"@) {
                Err(m) => PlanOutcome::Invalid(m),
                Ok(lines) => match spec_i64_arg(args, "start_line"@) {
                    Err(m) => PlanOutcome::Invalid(m),
                    Ok(start_line) => spec_call_plan(ServiceCall::LogFile { path, lines, start_line }),
                },
            },
        }
    } else if a == "validate_oidc_session"@ {
        match spec_string_arg(args, "token"@) {
            None => PlanOutcome::Invalid(spec_required_message("token"@, a)),
            Some(token) => spec_call_plan(ServiceCall::ValidateOidcSession(token)),
        }
    } else if a == "get_permissions_for_roles"@ {
        match spec_string_list_arg(args, "roles"@) {
            None => PlanOutcome::Invalid(spec_roles_message()),
            Some(roles) => match spec_roles(roles) {
                Err(bad) => PlanOutcome::Invalid(spec_invalid_role_message(bad)),
                Ok(_) => PlanOutcome::Roles(roles),
            },
        }
    } else if a == "create_notification"@ {
        spec_create_notification_plan(args)
    } else if a == "docker_remove_container"@ {
        match spec_string_arg(args, "id"@) {
            None => PlanOutcome::Invalid(spec_required_message("id"@, a)),
            Some(id) => spec_call_plan(
                ServiceCall::DockerRemoveContainer { id, with_image: spec_bool_arg(args, "with_image"@) },
            ),
        }
    } else if a == "docker_update_containers"@ {
        match spec_string_list_arg(args, "ids"@) {
            None => PlanOutcome::Invalid(spec_ids_message()),
            Some(ids) => PlanOutcome::Ids(ids),
        }
    } else if a == "array_set_state"@ {
        match spec_string_arg(args, "desired_state"@) {
            None => PlanOutcome::Invalid(spec_desired_state_message()),
            Some(ds) => if spec_array_state_input(ds@) is None {
                PlanOutcome::Invalid(spec_invalid_desired_state_message(ds@))
            } else {
                spec_call_plan(ServiceCall::ArraySetState(ds))
            },
        }
    } else if a == "array_add_disk_to_array"@ {
        match spec_string_arg(args, "id"@) {
            None => PlanOutcome::Invalid(spec_required_message("id"@, a)),
            Some(id) => spec_call_plan(ServiceCall::ArrayAddDiskToArray { id, slot: spec_slot(args) }),
        }
    } else if a == "array_remove_disk_from_array"@ {
        match spec_string_arg(args, "id"@) {
            None => PlanOutcome::Invalid(spec_required_message("id"@, a)),
            Some(id) => spec_call_plan(ServiceCall::ArrayRemoveDiskFromArray { id, slot: spec_slot(args) }),
        }
    } else if a == "parity_check_start"@ {
        spec_call_plan(
            ServiceCall::ParityCheckStart(
                match spec_bool_arg(args, "correct"@) {
                    Some(b) => b,
                    None => false,
                },
            ),
        )
    } else if a == "status"@ {
        PlanOutcome::Ready(ActionPlan::Status)
    } else if a == "help"@ {
        PlanOutcome::Ready(ActionPlan::Help)
    } else {
        PlanOutcome::Invalid(spec_unknown_action_message(a))
    }
}

/// The plan for a call of tool `name` with arguments `args`.
pub open spec fn spec_plan_tool(name: Seq<char>, args: ToolArgs) -> PlanOutcome {
    if name != "unraid"@ {
        PlanOutcome::Invalid(spec_unknown_tool_message(name))
    } else {
        match spec_string_arg(args, "action"@) {
            None => PlanOutcome::Invalid(spec_action_required_message()),
            Some(a) => spec_plan_action(a@, args),
        }
    }
}

/// `r` is the executable result denoted by the planning outcome `o`.
pub open spec fn plan_is(o: PlanOutcome, r: Result<ActionPlan, ToolError>) -> bool {
    match o {
        PlanOutcome::Ready(p) => r == Ok::<ActionPlan, ToolError>(p),
        PlanOutcome::Roles(roles) => match r {
            Ok(ActionPlan::Call { call: ServiceCall::GetPermissionsForRoles(v), page: None }) => v@ == roles,
            _ => false,
        },
        PlanOutcome::Ids(ids) => match r {
            Ok(ActionPlan::Call { call: ServiceCall::DockerUpdateContainers(v), page: None }) => v@ == ids,
            _ => false,
        },
        PlanOutcome::Invalid(m) => match r {
            Err(ToolError::InvalidParams(x)) => x@ == m,
            _ => false,
        },
    }
}

fn simple_call(a: &str) -> (r: Option<ServiceCall>)
    ensures
        r == spec_simple_call(a@),
{
    if str_eq(a, "array") {
        return Some(ServiceCall::Array);
    }
    if str_eq(a, "disks") {
        return Some(ServiceCall::Disks);
    }
    if str_eq(a, "server") {
        return Some(ServiceCall::Server);
    }
    if str_eq(a, "info") {
        return Some(ServiceCall::Info);
    }
    if str_eq(a, "network") {
        return Some(ServiceCall::Network);
    }
    if str_eq(a, "ups_config") {
        return Some(ServiceCall::UpsConfig);
    }
    if str_eq(a, "metrics") {
        return Some(ServiceCall::Metrics);
    }
    if str_eq(a, "vars") {
        return Some(ServiceCall::Vars);
    }
    if str_eq(a, "registration") {
        return Some(ServiceCall::Registration);
    }
    if str_eq(a, "flash") {
        return Some(ServiceCall::Flash);
    }
    if str_eq(a, "rclone") {
        return Some(ServiceCall::Rclone);
    }
    if str_eq(a, "remote_access") {
        return Some(ServiceCall::RemoteAccess);
    }
    if str_eq(a, "connect") {
        return Some(ServiceCall::Connect);
    }
    if str_eq(a, "online") {
        return Some(ServiceCall::Online);
    }
    if str_eq(a, "system_time") {
        return Some(ServiceCall::SystemTime);
    }
    if str_eq(a, "installed_unraid_plugins") {
        return Some(ServiceCall::InstalledUnraidPlugins);
    }
    if str_eq(a, "is_sso_enabled") {
        return Some(ServiceCall::IsSsoEnabled);
    }
    if str_eq(a, "public_oidc_providers") {
        return Some(ServiceCall::PublicOidcProviders);
    }
    if str_eq(a, "oidc_providers") {
        return Some(ServiceCall::OidcProviders);
    }
    if str_eq(a, "oidc_configuration") {
        return Some(ServiceCall::OidcConfiguration);
    }
    if str_eq(a, "api_keys") {
        return Some(ServiceCall::ApiKeys);
    }
    if str_eq(a, "api_key_possible_roles") {
        return Some(ServiceCall::ApiKeyPossibleRoles);
    }
    if str_eq(a, "api_key_possible_permissions") {
        return Some(ServiceCall::ApiKeyPossiblePermissions);
    }
    if str_eq(a, "get_available_auth_actions") {
        return Some(ServiceCall::GetAvailableAuthActions);
    }
    if str_eq(a, "get_api_key_creation_form_schema") {
        return Some(ServiceCall::GetApiKeyCreationFormSchema);
    }
    if str_eq(a, "config") {
        return Some(ServiceCall::Config);
    }
    if str_eq(a, "settings") {
        return Some(ServiceCall::Settings);
    }
    if str_eq(a, "display") {
        return Some(ServiceCall::Display);
    }
    if str_eq(a, "customization") {
        return Some(ServiceCall::Customization);
    }
    if str_eq(a, "internal_boot_context") {
        return Some(ServiceCall::InternalBootContext);
    }
    if str_eq(a, "me") {
        return Some(ServiceCall::Me);
    }
    if str_eq(a, "owner") {
        return Some(ServiceCall::Owner);
    }
    if str_eq(a, "servers") {
        return Some(ServiceCall::Servers);
    }
    if str_eq(a, "is_fresh_install") {
        return Some(ServiceCall::IsFreshInstall);
    }
    if str_eq(a, "public_theme") {
        return Some(ServiceCall::PublicTheme);
    }
    if str_eq(a, "network_interfaces") {
        return Some(ServiceCall::NetworkInterfaces);
    }
    if str_eq(a, "time_zone_options") {
        return Some(ServiceCall::TimeZoneOptions);
    }
    if str_eq(a, "assignable_disks") {
        return Some(ServiceCall::AssignableDisks);
    }
    if str_eq(a, "plugin_install_operations") {
        return Some(ServiceCall::PluginInstallOperations);
    }
    if str_eq(a, "cloud") {
        return Some(ServiceCall::Cloud);
    }
    if str_eq(a, "recalculate_overview") {
        return Some(ServiceCall::RecalculateOverview);
    }
    if str_eq(a, "delete_archived_notifications") {
        return Some(ServiceCall::DeleteArchivedNotifications);
    }
    if str_eq(a, "docker_update_all_containers") {
        return Some(ServiceCall::DockerUpdateAllContainers);
    }
    if str_eq(a, "parity_check_pause") {
        return Some(ServiceCall::ParityCheckPause);
    }
    if str_eq(a, "parity_check_resume") {
        return Some(ServiceCall::ParityCheckResume);
    }
    if str_eq(a, "parity_check_cancel") {
        return Some(ServiceCall::ParityCheckCancel);
    }
    None
}

fn paged_list(a: &str) -> (r: Option<ListField>)
    ensures
        r == spec_paged_list(a@),
{
    if str_eq(a, "docker") {
        return Some(ListField::DockerContainers);
    }
    if str_eq(a, "vms") {
        return Some(ListField::VmDomains);
    }
    if str_eq(a, "shares") {
        return Some(ListField::Shares);
    }
    if str_eq(a, "notifications") {
        return Some(ListField::NotificationAlerts);
    }
    if str_eq(a, "log_files") {
        return Some(ListField::LogFiles);
    }
    if str_eq(a, "services") {
        return Some(ListField::Services);
    }
    if str_eq(a, "ups") {
        return Some(ListField::UpsDevices);
    }
    if str_eq(a, "plugins") {
        return Some(ListField::Plugins);
    }
    if str_eq(a, "parity_history") {
        return Some(ListField::ParityHistory);
    }
    None
}

fn id_call(a: &str, id: String) -> (r: Option<ServiceCall>)
    ensures
        r == spec_id_call(a@, id),
        r is Some <==> spec_is_id_action(a@),
{
    if str_eq(a, "api_key") {
        return Some(ServiceCall::ApiKey(id));
    }
    if str_eq(a, "disk") {
        return Some(ServiceCall::Disk(id));
    }
    if str_eq(a, "oidc_provider") {
        return Some(ServiceCall::OidcProvider(id));
    }
    if str_eq(a, "ups_device_by_id") {
        return Some(ServiceCall::UpsDeviceById(id));
    }
    if str_eq(a, "plugin_install_operation") {
        return Some(ServiceCall::PluginInstallOperation(id));
    }
    if str_eq(a, "archive_notification") {
        return Some(ServiceCall::ArchiveNotification(id));
    }
    if str_eq(a, "vm_start") {
        return Some(ServiceCall::VmStart(id));
    }
    if str_eq(a, "vm_stop") {
        return Some(ServiceCall::VmStop(id));
    }
    if str_eq(a, "vm_pause") {
        return Some(ServiceCall::VmPause(id));
    }
    if str_eq(a, "vm_resume") {
        return Some(ServiceCall::VmResume(id));
    }
    if str_eq(a, "vm_force_stop") {
        return Some(ServiceCall::VmForceStop(id));
    }
    if str_eq(a, "vm_reboot") {
        return Some(ServiceCall::VmReboot(id));
    }
    if str_eq(a, "vm_reset") {
        return Some(ServiceCall::VmReset(id));
    }
    if str_eq(a, "docker_start") {
        return Some(ServiceCall::DockerStart(id));
    }
    if str_eq(a, "docker_stop") {
        return Some(ServiceCall::DockerStop(id));
    }
    if str_eq(a, "docker_pause") {
        return Some(ServiceCall::DockerPause(id));
    }
    if str_eq(a, "docker_unpause") {
        return Some(ServiceCall::DockerUnpause(id));
    }
    if str_eq(a, "docker_update_container") {
        return Some(ServiceCall::DockerUpdateContainer(id));
    }
    if str_eq(a, "array_mount_array_disk") {
        return Some(ServiceCall::ArrayMountArrayDisk(id));
    }
    if str_eq(a, "array_unmount_array_disk") {
        return Some(ServiceCall::ArrayUnmountArrayDisk(id));
    }
    if str_eq(a, "array_clear_array_disk_statistics") {
        return Some(ServiceCall::ArrayClearArrayDiskStatistics(id));
    }
    None
}

fn is_id_action(a: &str) -> (r: bool)
    ensures
        r == spec_is_id_action(a@),
{
    str_eq(a, "api_key")
        || str_eq(a, "disk")
        || str_eq(a, "oidc_provider")
        || str_eq(a, "ups_device_by_id")
        || str_eq(a, "plugin_install_operation")
        || str_eq(a, "archive_notification")
        || str_eq(a, "vm_start")
        || str_eq(a, "vm_stop")
        || str_eq(a, "vm_pause")
        || str_eq(a, "vm_resume")
        || str_eq(a, "vm_force_stop")
        || str_eq(a, "vm_reboot")
        || str_eq(a, "vm_reset")
        || str_eq(a, "docker_start")
        || str_eq(a, "docker_stop")
        || str_eq(a, "docker_pause")
        || str_eq(a, "docker_unpause")
        || str_eq(a, "docker_update_container")
        || str_eq(a, "array_mount_array_disk")
        || str_eq(a, "array_unmount_array_disk")
        || str_eq(a, "array_clear_array_disk_statistics")
}

fn invalid(m: String) -> (r: Result<ActionPlan, ToolError>)
    ensures
        r matches Err(ToolError::InvalidParams(x)) && x == m,
{
    Err(ToolError::InvalidParams(m))
}

fn required(arg: &str, action: &str) -> (r: String)
    ensures
        r@ == spec_required_message(arg@, action@),
{
    let mut r = concat3("\"", arg, "\" is required for action=");
    r.append(action);
    r.append(".");
    r
}

fn call_plan(call: ServiceCall) -> (r: Result<ActionPlan, ToolError>)
    ensures
        r == Ok::<ActionPlan, ToolError>(ActionPlan::Call { call, page: None }),
{
    Ok(ActionPlan::Call { call, page: None })
}

fn page_plan(l: ListField, args: &ToolArgs) -> (r: Result<ActionPlan, ToolError>)
    ensures
        plan_is(spec_page_plan(l, *args), r),
{
    let limit = match args.usize_arg("limit") {
        Ok(v) => v,
        Err(m) => {
            return invalid(m);
        },
    };
    let offset = match args.usize_arg("offset") {
        Ok(v) => v,
        Err(m) => {
            return invalid(m);
        },
    };
    let filter = match l.filter_key() {
        Some(k) => args.string_arg(k),
        None => None,
    };
    let lim: usize = match limit {
        Some(v) => v,
        None => 50,
    };
    let lim: usize = if lim < 200 { lim } else { 200 };
    let off: usize = match offset {
        Some(o) => o,
        None => 0,
    };
    Ok(ActionPlan::Call { call: l.call(), page: Some(PageRequest { list: l, limit: lim, offset: off, filter }) })
}

fn create_notification_plan(args: &ToolArgs) -> (r: Result<ActionPlan, ToolError>)
    ensures
        plan_is(spec_create_notification_plan(*args), r),
{
    let a = "create_notification";
    let title = match args.string_arg("title") {
        Some(v) => v,
        None => {
            return invalid(required("title", a));
        },
    };
    let subject = match args.string_arg("subject") {
        Some(v) => v,
        None => {
            return invalid(required("subject", a));
        },
    };
    let description = match args.string_arg("description") {
        Some(v) => v,
        None => {
            return invalid(required("description", a));
        },
    };
    let importance = match args.string_arg("importance") {
        Some(v) => v,
        None => {
            return invalid(required("importance", a));
        },
    };
    if parse_notification_importance(importance.as_str()).is_none() {
        return invalid(invalid_importance_message(importance.as_str()));
    }
    let link = args.string_arg("link");
    call_plan(ServiceCall::CreateNotification { title, subject, description, importance, link })
}

fn slot_arg(args: &ToolArgs) -> (r: Option<i32>)
    ensures
        r == spec_slot(*args),
{
    match args.i64_value("slot") {
        Some(n) => Some(n as i32),
        None => None,
    }
}

/// Plans action `a`: which service call to make with which arguments, or which
/// argument is missing or malformed.
pub fn plan_action(a: &str, args: &ToolArgs) -> (r: Result<ActionPlan, ToolError>)
    ensures
        plan_is(spec_plan_action(a@, *args), r),
{
    if let Some(call) = simple_call(a) {
        return call_plan(call);
    }
    if let Some(l) = paged_list(a) {
        return page_plan(l, args);
    }
    if is_id_action(a) {
        let id = match args.string_arg("id") {
            Some(id) => id,
            None => {
                return invalid(required("id", a));
            },
        };
        return match id_call(a, id) {
            Some(call) => call_plan(call),
            None => invalid(required("id", a)),
        };
    }
    if str_eq(a, "docker_logs") {
        let id = match args.string_arg("id") {
            Some(id) => id,
            None => {
                return invalid(String::from_str(
                    "\"id\" is required for action=docker_logs.\nHint: call action=docker first to list available container IDs.\nExample: {\"action\": \"docker_logs\", \"id\": \"<container_id>\", \"tail\": 100}",
                ));
            },
        };
        let tail = match args.i64_arg("tail") {
            Ok(t) => t,
            Err(m) => {
                return invalid(m);
            },
        };
        return call_plan(ServiceCall::DockerLogs { id, tail });
    }
    if str_eq(a, "log_file") {
        let path = match args.string_arg("path") {
            Some(p) => p,
            None => {
                return invalid(String::from_str(
                    "\"path\" is required for action=log_file.\nHint: call action=log_files first to list available log file paths.\nExample: {\"action\": \"log_file\", \"path\": \"/var/log/syslog\", \"lines\": 100}",
                ));
            },
        };
        let lines = match args.i64_arg("lines") {
            Ok(t) => t,
            Err(m) => {
                return invalid(m);
            },
        };
        let start_line = match args.i64_arg("start_line") {
            Ok(t) => t,
            Err(m) => {
                return invalid(m);
            },
        };
        return call_plan(ServiceCall::LogFile { path, lines, start_line });
    }
    if str_eq(a, "validate_oidc_session") {
        return match args.string_arg("token") {
            Some(token) => call_plan(ServiceCall::ValidateOidcSession(token)),
            None => invalid(required("token", a)),
        };
    }
    if str_eq(a, "get_permissions_for_roles") {
        return match args.string_list_arg("roles") {
            Some(roles) => match parse_roles(&roles) {
                Err(bad) => invalid(invalid_role_message(bad.as_str())),
                Ok(_) => call_plan(ServiceCall::GetPermissionsForRoles(roles)),
            },
            None => invalid(String::from_str(
                "\"roles\" (a non-empty array of role names) is required for action=get_permissions_for_roles.",
            )),
        };
    }
    if str_eq(a, "create_notification") {
        return create_notification_plan(args);
    }
    if str_eq(a, "docker_remove_container") {
        return match args.string_arg("id") {
            Some(id) => call_plan(ServiceCall::DockerRemoveContainer { id, with_image: args.bool_arg("with_image") }),
            None => invalid(required("id", a)),
        };
    }
    if str_eq(a, "docker_update_containers") {
        return match args.string_list_arg("ids") {
            Some(ids) => call_plan(ServiceCall::DockerUpdateContainers(ids)),
            None => invalid(String::from_str(
                "\"ids\" (non-empty array) is required for action=docker_update_containers.",
            )),
        };
    }
    if str_eq(a, "array_set_state") {
        return match args.string_arg("desired_state") {
            Some(ds) => if parse_array_state_input(ds.as_str()).is_none() {
                invalid(invalid_desired_state_message(ds.as_str()))
            } else {
                call_plan(ServiceCall::ArraySetState(ds))
            },
            None => invalid(String::from_str(
                "\"desired_state\" (START/STOP) is required for action=array_set_state.",
            )),
        };
    }
    if str_eq(a, "array_add_disk_to_array") {
        return match args.string_arg("id") {
            Some(id) => call_plan(ServiceCall::ArrayAddDiskToArray { id, slot: slot_arg(args) }),
            None => invalid(required("id", a)),
        };
    }
    if str_eq(a, "array_remove_disk_from_array") {
        return match args.string_arg("id") {
            Some(id) => call_plan(ServiceCall::ArrayRemoveDiskFromArray { id, slot: slot_arg(args) }),
            None => invalid(required("id", a)),
        };
    }
    if str_eq(a, "parity_check_start") {
        let correct = match args.bool_arg("correct") {
            Some(b) => b,
            None => false,
        };
        return call_plan(ServiceCall::ParityCheckStart(correct));
    }
    if str_eq(a, "status") {
        return Ok(ActionPlan::Status);
    }
    if str_eq(a, "help") {
        return Ok(ActionPlan::Help);
    }
    let valid = valid_actions_text();
    let mut m = concat3("unknown unraid action: \"", a, "\"\nValid actions: ");
    m.append(valid.as_str());
    m.append("\nSee: action=help for full documentation.");
    invalid(m)
}

/// Plans a call of tool `name`: only the `unraid` tool exists, and it needs an
/// `action` argument.
pub fn plan_tool(name: &str, args: &ToolArgs) -> (r: Result<ActionPlan, ToolError>)
    ensures
        plan_is(spec_plan_tool(name@, *args), r),
{
    if !str_eq(name, "unraid") {
        let m = concat3("unknown tool: ", name, "\nHint: the only supported tool is \"unraid\".\nUse action=help for documentation.");
        return invalid(m);
    }
    match args.string_arg("action") {
        Some(a) => plan_action(a.as_str(), args),
        None => {
            let valid = valid_actions_text();
            let m = concat3(
                "\"action\" is required.\nValid actions: ",
                valid.as_str(),
                "\nExample: {\"action\": \"docker\"}\nSee: action=help for full documentation.",
            );
            invalid(m)
        },
    }
}

/// Whether the dispatcher has a branch for action `a`.
pub open spec fn spec_dispatches(a: Seq<char>) -> bool {
    spec_simple_call(a) is Some || spec_paged_list(a) is Some || spec_is_id_action(a) || a == "docker_logs"@
        || a == "log_file"@ || a == "validate_oidc_session"@ || a == "get_permissions_for_roles"@
        || a == "create_notification"@ || a == "docker_remove_container"@ || a == "docker_update_containers"@
        || a == "array_set_state"@ || a == "array_add_disk_to_array"@ || a == "array_remove_disk_from_array"@
        || a == "parity_check_start"@ || a == "status"@ || a == "help"@
}

/// Dispatch routes by name: whenever action `a` plans a service call, it is the
/// call of the same name, and any page it asks for holds at most 200 items.
/// An action the dispatcher has no branch for is answered with the
/// unknown-action error.
pub proof fn lemma_plan_routes_by_name(a: Seq<char>, args: ToolArgs)
    ensures
        match spec_plan_action(a, args) {
            PlanOutcome::Ready(ActionPlan::Call { call, page }) => spec_call_name(call)@ == a && match page {
                Some(p) => p.limit <= 200,
                None => true,
            },
            PlanOutcome::Roles(_) => a == "get_permissions_for_roles"@,
            PlanOutcome::Ids(_) => a == "docker_update_containers"@,
            PlanOutcome::Ready(ActionPlan::Status) => a == "status"@,
            PlanOutcome::Ready(ActionPlan::Help) => a == "help"@,
            PlanOutcome::Invalid(_) => true,
        },
        !spec_dispatches(a) ==> spec_plan_action(a, args) == PlanOutcome::Invalid(spec_unknown_action_message(a)),
{
}

/// The dispatcher serves exactly the catalogued actions: every action of the
/// catalogue has a branch, and every branch is for a catalogued action.
pub proof fn lemma_dispatch_covers_catalogue(a: Seq<char>)
    ensures
        spec_dispatches(a) <==> exists|i: int| 0 <= i < spec_actions().len() && (#[trigger] spec_actions()[i]).name@ == a,
{
    let s = spec_actions();
    if spec_dispatches(a) {
        if a == "array"@ {
            assert(s[0].name@ == a);
        }
        if a == "disks"@ {
            assert(s[1].name@ == a);
        }
        if a == "docker"@ {
            assert(s[2].name@ == a);
        }
        if a == "docker_logs"@ {
            assert(s[3].name@ == a);
        }
        if a == "vms"@ {
            assert(s[4].name@ == a);
        }
        if a == "server"@ {
            assert(s[5].name@ == a);
        }
        if a == "info"@ {
            assert(s[6].name@ == a);
        }
        if a == "shares"@ {
            assert(s[7].name@ == a);
        }
        if a == "notifications"@ {
            assert(s[8].name@ == a);
        }
        if a == "log_files"@ {
            assert(s[9].name@ == a);
        }
        if a == "log_file"@ {
            assert(s[10].name@ == a);
        }
        if a == "services"@ {
            assert(s[11].name@ == a);
        }
        if a == "network"@ {
            assert(s[12].name@ == a);
        }
        if a == "ups"@ {
            assert(s[13].name@ == a);
        }
        if a == "ups_config"@ {
            assert(s[14].name@ == a);
        }
        if a == "metrics"@ {
            assert(s[15].name@ == a);
        }
        if a == "plugins"@ {
            assert(s[16].name@ == a);
        }
        if a == "parity_history"@ {
            assert(s[17].name@ == a);
        }
        if a == "vars"@ {
            assert(s[18].name@ == a);
        }
        if a == "registration"@ {
            assert(s[19].name@ == a);
        }
        if a == "flash"@ {
            assert(s[20].name@ == a);
        }
        if a == "rclone"@ {
            assert(s[21].name@ == a);
        }
        if a == "remote_access"@ {
            assert(s[22].name@ == a);
        }
        if a == "connect"@ {
            assert(s[23].name@ == a);
        }
        if a == "online"@ {
            assert(s[24].name@ == a);
        }
        if a == "system_time"@ {
            assert(s[25].name@ == a);
        }
        if a == "installed_unraid_plugins"@ {
            assert(s[26].name@ == a);
        }
        if a == "is_sso_enabled"@ {
            assert(s[27].name@ == a);
        }
        if a == "public_oidc_providers"@ {
            assert(s[28].name@ == a);
        }
        if a == "oidc_providers"@ {
            assert(s[29].name@ == a);
        }
        if a == "oidc_configuration"@ {
            assert(s[30].name@ == a);
        }
        if a == "api_keys"@ {
            assert(s[31].name@ == a);
        }
        if a == "api_key_possible_roles"@ {
            assert(s[32].name@ == a);
        }
        if a == "api_key_possible_permissions"@ {
            assert(s[33].name@ == a);
        }
        if a == "get_available_auth_actions"@ {
            assert(s[34].name@ == a);
        }
        if a == "get_api_key_creation_form_schema"@ {
            assert(s[35].name@ == a);
        }
        if a == "config"@ {
            assert(s[36].name@ == a);
        }
        if a == "settings"@ {
            assert(s[37].name@ == a);
        }
        if a == "display"@ {
            assert(s[38].name@ == a);
        }
        if a == "customization"@ {
            assert(s[39].name@ == a);
        }
        if a == "internal_boot_context"@ {
            assert(s[40].name@ == a);
        }
        if a == "me"@ {
            assert(s[41].name@ == a);
        }
        if a == "owner"@ {
            assert(s[42].name@ == a);
        }
        if a == "servers"@ {
            assert(s[43].name@ == a);
        }
        if a == "is_fresh_install"@ {
            assert(s[44].name@ == a);
        }
        if a == "public_theme"@ {
            assert(s[45].name@ == a);
        }
        if a == "network_interfaces"@ {
            assert(s[46].name@ == a);
        }
        if a == "time_zone_options"@ {
            assert(s[47].name@ == a);
        }
        if a == "assignable_disks"@ {
            assert(s[48].name@ == a);
        }
        if a == "plugin_install_operations"@ {
            assert(s[49].name@ == a);
        }
        if a == "cloud"@ {
            assert(s[50].name@ == a);
        }
        if a == "api_key"@ {
            assert(s[51].name@ == a);
        }
        if a == "disk"@ {
            assert(s[52].name@ == a);
        }
        if a == "oidc_provider"@ {
            assert(s[53].name@ == a);
        }
        if a == "ups_device_by_id"@ {
            assert(s[54].name@ == a);
        }
        if a == "plugin_install_operation"@ {
            assert(s[55].name@ == a);
        }
        if a == "validate_oidc_session"@ {
            assert(s[56].name@ == a);
        }
        if a == "get_permissions_for_roles"@ {
            assert(s[57].name@ == a);
        }
        if a == "recalculate_overview"@ {
            assert(s[58].name@ == a);
        }
        if a == "delete_archived_notifications"@ {
            assert(s[59].name@ == a);
        }
        if a == "archive_notification"@ {
            assert(s[60].name@ == a);
        }
        if a == "create_notification"@ {
            assert(s[61].name@ == a);
        }
        if a == "vm_start"@ {
            assert(s[62].name@ == a);
        }
        if a == "vm_stop"@ {
            assert(s[63].name@ == a);
        }
        if a == "vm_pause"@ {
            assert(s[64].name@ == a);
        }
        if a == "vm_resume"@ {
            assert(s[65].name@ == a);
        }
        if a == "vm_force_stop"@ {
            assert(s[66].name@ == a);
        }
        if a == "vm_reboot"@ {
            assert(s[67].name@ == a);
        }
        if a == "vm_reset"@ {
            assert(s[68].name@ == a);
        }
        if a == "docker_start"@ {
            assert(s[69].name@ == a);
        }
        if a == "docker_stop"@ {
            assert(s[70].name@ == a);
        }
        if a == "docker_pause"@ {
            assert(s[71].name@ == a);
        }
        if a == "docker_unpause"@ {
            assert(s[72].name@ == a);
        }
        if a == "docker_update_container"@ {
            assert(s[73].name@ == a);
        }
        if a == "docker_remove_container"@ {
            assert(s[74].name@ == a);
        }
        if a == "docker_update_containers"@ {
            assert(s[75].name@ == a);
        }
        if a == "docker_update_all_containers"@ {
            assert(s[76].name@ == a);
        }
        if a == "array_set_state"@ {
            assert(s[77].name@ == a);
        }
        if a == "array_add_disk_to_array"@ {
            assert(s[78].name@ == a);
        }
        if a == "array_remove_disk_from_array"@ {
            assert(s[79].name@ == a);
        }
        if a == "array_mount_array_disk"@ {
            assert(s[80].name@ == a);
        }
        if a == "array_unmount_array_disk"@ {
            assert(s[81].name@ == a);
        }
        if a == "array_clear_array_disk_statistics"@ {
            assert(s[82].name@ == a);
        }
        if a == "parity_check_start"@ {
            assert(s[83].name@ == a);
        }
        if a == "parity_check_pause"@ {
            assert(s[84].name@ == a);
        }
        if a == "parity_check_resume"@ {
            assert(s[85].name@ == a);
        }
        if a == "parity_check_cancel"@ {
            assert(s[86].name@ == a);
        }
        if a == "status"@ {
            assert(s[87].name@ == a);
        }
        if a == "help"@ {
            assert(s[88].name@ == a);
        }
    }
    if exists|i: int| 0 <= i < s.len() && (#[trigger] s[i]).name@ == a {
        let i = choose|i: int| 0 <= i < s.len() && (#[trigger] s[i]).name@ == a;
        if i == 0 {
            assert(spec_dispatches("array"@));
        } else if i == 1 {
            assert(spec_dispatches("disks"@));
        } else if i == 2 {
            assert(spec_dispatches("docker"@));
        } else if i == 3 {
            assert(spec_dispatches("docker_logs"@));
        } else if i == 4 {
            assert(spec_dispatches("vms"@));
        } else if i == 5 {
            assert(spec_dispatches("server"@));
        } else if i == 6 {
            assert(spec_dispatches("info"@));
        } else if i == 7 {
            assert(spec_dispatches("shares"@));
        } else if i == 8 {
            assert(spec_dispatches("notifications"@));
        } else if i == 9 {
            assert(spec_dispatches("log_files"@));
        } else if i == 10 {
            assert(spec_dispatches("log_file"@));
        } else if i == 11 {
            assert(spec_dispatches("services"@));
        } else if i == 12 {
            assert(spec_dispatches("network"@));
        } else if i == 13 {
            assert(spec_dispatches("ups"@));
        } else if i == 14 {
            assert(spec_dispatches("ups_config"@));
        } else if i == 15 {
            assert(spec_dispatches("metrics"@));
        } else if i == 16 {
            assert(spec_dispatches("plugins"@));
        } else if i == 17 {
            assert(spec_dispatches("parity_history"@));
        } else if i == 18 {
            assert(spec_dispatches("vars"@));
        } else if i == 19 {
            assert(spec_dispatches("registration"@));
        } else if i == 20 {
            assert(spec_dispatches("flash"@));
        } else if i == 21 {
            assert(spec_dispatches("rclone"@));
        } else if i == 22 {
            assert(spec_dispatches("remote_access"@));
        } else if i == 23 {
            assert(spec_dispatches("connect"@));
        } else if i == 24 {
            assert(spec_dispatches("online"@));
        } else if i == 25 {
            assert(spec_dispatches("system_time"@));
        } else if i == 26 {
            assert(spec_dispatches("installed_unraid_plugins"@));
        } else if i == 27 {
            assert(spec_dispatches("is_sso_enabled"@));
        } else if i == 28 {
            assert(spec_dispatches("public_oidc_providers"@));
        } else if i == 29 {
            assert(spec_dispatches("oidc_providers"@));
        } else if i == 30 {
            assert(spec_dispatches("oidc_configuration"@));
        } else if i == 31 {
            assert(spec_dispatches("api_keys"@));
        } else if i == 32 {
            assert(spec_dispatches("api_key_possible_roles"@));
        } else if i == 33 {
            assert(spec_dispatches("api_key_possible_permissions"@));
        } else if i == 34 {
            assert(spec_dispatches("get_available_auth_actions"@));
        } else if i == 35 {
            assert(spec_dispatches("get_api_key_creation_form_schema"@));
        } else if i == 36 {
            assert(spec_dispatches("config"@));
        } else if i == 37 {
            assert(spec_dispatches("settings"@));
        } else if i == 38 {
            assert(spec_dispatches("display"@));
        } else if i == 39 {
            assert(spec_dispatches("customization"@));
        } else if i == 40 {
            assert(spec_dispatches("internal_boot_context"@));
        } else if i == 41 {
            assert(spec_dispatches("me"@));
        } else if i == 42 {
            assert(spec_dispatches("owner"@));
        } else if i == 43 {
            assert(spec_dispatches("servers"@));
        } else if i == 44 {
            assert(spec_dispatches("is_fresh_install"@));
        } else if i == 45 {
            assert(spec_dispatches("public_theme"@));
        } else if i == 46 {
            assert(spec_dispatches("network_interfaces"@));
        } else if i == 47 {
            assert(spec_dispatches("time_zone_options"@));
        } else if i == 48 {
            assert(spec_dispatches("assignable_disks"@));
        } else if i == 49 {
            assert(spec_dispatches("plugin_install_operations"@));
        } else if i == 50 {
            assert(spec_dispatches("cloud"@));
        } else if i == 51 {
            assert(spec_dispatches("api_key"@));
        } else if i == 52 {
            assert(spec_dispatches("disk"@));
        } else if i == 53 {
            assert(spec_dispatches("oidc_provider"@));
        } else if i == 54 {
            assert(spec_dispatches("ups_device_by_id"@));
        } else if i == 55 {
            assert(spec_dispatches("plugin_install_operation"@));
        } else if i == 56 {
            assert(spec_dispatches("validate_oidc_session"@));
        } else if i == 57 {
            assert(spec_dispatches("get_permissions_for_roles"@));
        } else if i == 58 {
            assert(spec_dispatches("recalculate_overview"@));
        } else if i == 59 {
            assert(spec_dispatches("delete_archived_notifications"@));
        } else if i == 60 {
            assert(spec_dispatches("archive_notification"@));
        } else if i == 61 {
            assert(spec_dispatches("create_notification"@));
        } else if i == 62 {
            assert(spec_dispatches("vm_start"@));
        } else if i == 63 {
            assert(spec_dispatches("vm_stop"@));
        } else if i == 64 {
            assert(spec_dispatches("vm_pause"@));
        } else if i == 65 {
            assert(spec_dispatches("vm_resume"@));
        } else if i == 66 {
            assert(spec_dispatches("vm_force_stop"@));
        } else if i == 67 {
            assert(spec_dispatches("vm_reboot"@));
        } else if i == 68 {
            assert(spec_dispatches("vm_reset"@));
        } else if i == 69 {
            assert(spec_dispatches("docker_start"@));
        } else if i == 70 {
            assert(spec_dispatches("docker_stop"@));
        } else if i == 71 {
            assert(spec_dispatches("docker_pause"@));
        } else if i == 72 {
            assert(spec_dispatches("docker_unpause"@));
        } else if i == 73 {
            assert(spec_dispatches("docker_update_container"@));
        } else if i == 74 {
            assert(spec_dispatches("docker_remove_container"@));
        } else if i == 75 {
            assert(spec_dispatches("docker_update_containers"@));
        } else if i == 76 {
            assert(spec_dispatches("docker_update_all_containers"@));
        } else if i == 77 {
            assert(spec_dispatches("array_set_state"@));
        } else if i == 78 {
            assert(spec_dispatches("array_add_disk_to_array"@));
        } else if i == 79 {
            assert(spec_dispatches("array_remove_disk_from_array"@));
        } else if i == 80 {
            assert(spec_dispatches("array_mount_array_disk"@));
        } else if i == 81 {
            assert(spec_dispatches("array_unmount_array_disk"@));
        } else if i == 82 {
            assert(spec_dispatches("array_clear_array_disk_statistics"@));
        } else if i == 83 {
            assert(spec_dispatches("parity_check_start"@));
        } else if i == 84 {
            assert(spec_dispatches("parity_check_pause"@));
        } else if i == 85 {
            assert(spec_dispatches("parity_check_resume"@));
        } else if i == 86 {
            assert(spec_dispatches("parity_check_cancel"@));
        } else if i == 87 {
            assert(spec_dispatches("status"@));
        } else if i == 88 {
            assert(spec_dispatches("help"@));
        }
    }
}

/// A malformed argument is caught while planning: the request of every call the
/// tool plans can be built, so an unknown importance, array state or role name
/// is answered with `invalid_params` and never reaches the upstream stage.
pub proof fn lemma_planned_calls_build(a: Seq<char>, args: ToolArgs, call: ServiceCall, r: Result<
    UpstreamRequest,
    UpstreamError,
>)
    requires
        match spec_plan_action(a, args) {
            PlanOutcome::Ready(ActionPlan::Call { call: c, page: _ }) => c == call,
            PlanOutcome::Roles(roles) => call matches ServiceCall::GetPermissionsForRoles(v) && v@ == roles,
            PlanOutcome::Ids(ids) => call matches ServiceCall::DockerUpdateContainers(v) && v@ == ids,
            _ => false,
        },
        request_is(call, r),
    ensures
        r is Ok,
{
}

/// The string value of the first member named `name`, read off the entries.
pub open spec fn given_string(args: ToolArgs, name: Seq<char>) -> Option<String> {
    match crate::args::spec_get(args.entries@, name) {
        Some(ArgValue::Str(s)) => Some(s),
        _ => None,
    }
}

/// Paged list actions keep the caller's filter: `docker` filters by the `state`
/// argument, `shares` and `plugins` by the `name` argument, exactly as given;
/// the other list actions take no filter. Every list action pages its own list
/// with a limit of at most 200, 50 when none is given, from the given offset (0
/// when none is given).
pub proof fn lemma_list_actions_keep_their_filter(args: ToolArgs)
    ensures
        spec_plan_action("docker"@, args) matches PlanOutcome::Ready(ActionPlan::Call { call, page: Some(p) })
            ==> call == ServiceCall::Docker && p.list == ListField::DockerContainers && p.filter == given_string(
            args,
            "state"@,
        ),
        spec_plan_action("shares"@, args) matches PlanOutcome::Ready(ActionPlan::Call { call, page: Some(p) })
            ==> call == ServiceCall::Shares && p.list == ListField::Shares && p.filter == given_string(args, "name"@),
        spec_plan_action("plugins"@, args) matches PlanOutcome::Ready(ActionPlan::Call { call, page: Some(p) })
            ==> call == ServiceCall::Plugins && p.list == ListField::Plugins && p.filter == given_string(args, "name"@),
        spec_plan_action("vms"@, args) matches PlanOutcome::Ready(ActionPlan::Call { call, page: Some(p) })
            ==> call == ServiceCall::Vms && p.list == ListField::VmDomains && p.filter is None,
        spec_plan_action("notifications"@, args) matches PlanOutcome::Ready(ActionPlan::Call { call, page: Some(p) })
            ==> call == ServiceCall::Notifications && p.list == ListField::NotificationAlerts && p.filter is None,
        spec_plan_action("log_files"@, args) matches PlanOutcome::Ready(ActionPlan::Call { call, page: Some(p) })
            ==> call == ServiceCall::LogFiles && p.list == ListField::LogFiles && p.filter is None,
        spec_plan_action("services"@, args) matches PlanOutcome::Ready(ActionPlan::Call { call, page: Some(p) })
            ==> call == ServiceCall::Services && p.list == ListField::Services && p.filter is None,
        spec_plan_action("ups"@, args) matches PlanOutcome::Ready(ActionPlan::Call { call, page: Some(p) })
            ==> call == ServiceCall::Ups && p.list == ListField::UpsDevices && p.filter is None,
        spec_plan_action("parity_history"@, args) matches PlanOutcome::Ready(ActionPlan::Call { call, page: Some(p) })
            ==> call == ServiceCall::ParityHistory && p.list == ListField::ParityHistory && p.filter is None,
        forall|a: Seq<char>|
            #![trigger spec_plan_action(a, args)]
            spec_plan_action(a, args) matches PlanOutcome::Ready(ActionPlan::Call { call: _, page: Some(p) }) ==> {
                &&& p.limit <= 200
                &&& (spec_get(args.entries@, "limit"@) is None ==> p.limit == 50)
                &&& (spec_get(args.entries@, "offset"@) is None ==> p.offset == 0)
                &&& (spec_get(args.entries@, "offset"@) matches Some(ArgValue::Number(n)) ==> n.as_u64 == Some(
                    p.offset as u64,
                ))
            },
{
    reveal_strlit("array");
    reveal_strlit("disks");
    reveal_strlit("server");
    reveal_strlit("info");
    reveal_strlit("network");
    reveal_strlit("ups_config");
    reveal_strlit("metrics");
    reveal_strlit("vars");
    reveal_strlit("registration");
    reveal_strlit("flash");
    reveal_strlit("rclone");
    reveal_strlit("remote_access");
    reveal_strlit("connect");
    reveal_strlit("online");
    reveal_strlit("system_time");
    reveal_strlit("installed_unraid_plugins");
    reveal_strlit("is_sso_enabled");
    reveal_strlit("public_oidc_providers");
    reveal_strlit("oidc_providers");
    reveal_strlit("oidc_configuration");
    reveal_strlit("api_keys");
    reveal_strlit("api_key_possible_roles");
    reveal_strlit("api_key_possible_permissions");
    reveal_strlit("get_available_auth_actions");
    reveal_strlit("get_api_key_creation_form_schema");
    reveal_strlit("config");
    reveal_strlit("settings");
    reveal_strlit("display");
    reveal_strlit("customization");
    reveal_strlit("internal_boot_context");
    reveal_strlit("me");
    reveal_strlit("owner");
    reveal_strlit("servers");
    reveal_strlit("is_fresh_install");
    reveal_strlit("public_theme");
    reveal_strlit("network_interfaces");
    reveal_strlit("time_zone_options");
    reveal_strlit("assignable_disks");
    reveal_strlit("plugin_install_operations");
    reveal_strlit("cloud");
    reveal_strlit("recalculate_overview");
    reveal_strlit("delete_archived_notifications");
    reveal_strlit("docker_update_all_containers");
    reveal_strlit("parity_check_pause");
    reveal_strlit("parity_check_resume");
    reveal_strlit("parity_check_cancel");
    reveal_strlit("docker");
    reveal_strlit("vms");
    reveal_strlit("shares");
    reveal_strlit("notifications");
    reveal_strlit("log_files");
    reveal_strlit("services");
    reveal_strlit("ups");
    reveal_strlit("plugins");
    reveal_strlit("parity_history");
    assert("docker"@.len() != "array"@.len());
    assert("docker"@.len() != "disks"@.len());
    assert("docker"@[0] != "server"@[0]);
    assert("docker"@.len() != "info"@.len());
    assert("docker"@.len() != "network"@.len());
    assert("docker"@.len() != "ups_config"@.len());
    assert("docker"@.len() != "metrics"@.len());
    assert("docker"@.len() != "vars"@.len());
    assert("docker"@.len() != "registration"@.len());
    assert("docker"@.len() != "flash"@.len());
    assert("docker"@[0] != "rclone"@[0]);
    assert("docker"@.len() != "remote_access"@.len());
    assert("docker"@.len() != "connect"@.len());
    assert("docker"@[0] != "online"@[0]);
    assert("docker"@.len() != "system_time"@.len());
    assert("docker"@.len() != "installed_unraid_plugins"@.len());
    assert("docker"@.len() != "is_sso_enabled"@.len());
    assert("docker"@.len() != "public_oidc_providers"@.len());
    assert("docker"@.len() != "oidc_providers"@.len());
    assert("docker"@.len() != "oidc_configuration"@.len());
    assert("docker"@.len() != "api_keys"@.len());
    assert("docker"@.len() != "api_key_possible_roles"@.len());
    assert("docker"@.len() != "api_key_possible_permissions"@.len());
    assert("docker"@.len() != "get_available_auth_actions"@.len());
    assert("docker"@.len() != "get_api_key_creation_form_schema"@.len());
    assert("docker"@[0] != "config"@[0]);
    assert("docker"@.len() != "settings"@.len());
    assert("docker"@.len() != "display"@.len());
    assert("docker"@.len() != "customization"@.len());
    assert("docker"@.len() != "internal_boot_context"@.len());
    assert("docker"@.len() != "me"@.len());
    assert("docker"@.len() != "owner"@.len());
    assert("docker"@.len() != "servers"@.len());
    assert("docker"@.len() != "is_fresh_install"@.len());
    assert("docker"@.len() != "public_theme"@.len());
    assert("docker"@.len() != "network_interfaces"@.len());
    assert("docker"@.len() != "time_zone_options"@.len());
    assert("docker"@.len() != "assignable_disks"@.len());
    assert("docker"@.len() != "plugin_install_operations"@.len());
    assert("docker"@.len() != "cloud"@.len());
    assert("docker"@.len() != "recalculate_overview"@.len());
    assert("docker"@.len() != "delete_archived_notifications"@.len());
    assert("docker"@.len() != "docker_update_all_containers"@.len());
    assert("docker"@.len() != "parity_check_pause"@.len());
    assert("docker"@.len() != "parity_check_resume"@.len());
    assert("docker"@.len() != "parity_check_cancel"@.len());
    assert("vms"@.len() != "array"@.len());
    assert("vms"@.len() != "disks"@.len());
    assert("vms"@.len() != "server"@.len());
    assert("vms"@.len() != "info"@.len());
    assert("vms"@.len() != "network"@.len());
    assert("vms"@.len() != "ups_config"@.len());
    assert("vms"@.len() != "metrics"@.len());
    assert("vms"@.len() != "vars"@.len());
    assert("vms"@.len() != "registration"@.len());
    assert("vms"@.len() != "flash"@.len());
    assert("vms"@.len() != "rclone"@.len());
    assert("vms"@.len() != "remote_access"@.len());
    assert("vms"@.len() != "connect"@.len());
    assert("vms"@.len() != "online"@.len());
    assert("vms"@.len() != "system_time"@.len());
    assert("vms"@.len() != "installed_unraid_plugins"@.len());
    assert("vms"@.len() != "is_sso_enabled"@.len());
    assert("vms"@.len() != "public_oidc_providers"@.len());
    assert("vms"@.len() != "oidc_providers"@.len());
    assert("vms"@.len() != "oidc_configuration"@.len());
    assert("vms"@.len() != "api_keys"@.len());
    assert("vms"@.len() != "api_key_possible_roles"@.len());
    assert("vms"@.len() != "api_key_possible_permissions"@.len());
    assert("vms"@.len() != "get_available_auth_actions"@.len());
    assert("vms"@.len() != "get_api_key_creation_form_schema"@.len());
    assert("vms"@.len() != "config"@.len());
    assert("vms"@.len() != "settings"@.len());
    assert("vms"@.len() != "display"@.len());
    assert("vms"@.len() != "customization"@.len());
    assert("vms"@.len() != "internal_boot_context"@.len());
    assert("vms"@.len() != "me"@.len());
    assert("vms"@.len() != "owner"@.len());
    assert("vms"@.len() != "servers"@.len());
    assert("vms"@.len() != "is_fresh_install"@.len());
    assert("vms"@.len() != "public_theme"@.len());
    assert("vms"@.len() != "network_interfaces"@.len());
    assert("vms"@.len() != "time_zone_options"@.len());
    assert("vms"@.len() != "assignable_disks"@.len());
    assert("vms"@.len() != "plugin_install_operations"@.len());
    assert("vms"@.len() != "cloud"@.len());
    assert("vms"@.len() != "recalculate_overview"@.len());
    assert("vms"@.len() != "delete_archived_notifications"@.len());
    assert("vms"@.len() != "docker_update_all_containers"@.len());
    assert("vms"@.len() != "parity_check_pause"@.len());
    assert("vms"@.len() != "parity_check_resume"@.len());
    assert("vms"@.len() != "parity_check_cancel"@.len());
    assert("vms"@.len() != "docker"@.len());
    assert("shares"@.len() != "array"@.len());
    assert("shares"@.len() != "disks"@.len());
    assert("shares"@[1] != "server"@[1]);
    assert("shares"@.len() != "info"@.len());
    assert("shares"@.len() != "network"@.len());
    assert("shares"@.len() != "ups_config"@.len());
    assert("shares"@.len() != "metrics"@.len());
    assert("shares"@.len() != "vars"@.len());
    assert("shares"@.len() != "registration"@.len());
    assert("shares"@.len() != "flash"@.len());
    assert("shares"@[0] != "rclone"@[0]);
    assert("shares"@.len() != "remote_access"@.len());
    assert("shares"@.len() != "connect"@.len());
    assert("shares"@[0] != "online"@[0]);
    assert("shares"@.len() != "system_time"@.len());
    assert("shares"@.len() != "installed_unraid_plugins"@.len());
    assert("shares"@.len() != "is_sso_enabled"@.len());
    assert("shares"@.len() != "public_oidc_providers"@.len());
    assert("shares"@.len() != "oidc_providers"@.len());
    assert("shares"@.len() != "oidc_configuration"@.len());
    assert("shares"@.len() != "api_keys"@.len());
    assert("shares"@.len() != "api_key_possible_roles"@.len());
    assert("shares"@.len() != "api_key_possible_permissions"@.len());
    assert("shares"@.len() != "get_available_auth_actions"@.len());
    assert("shares"@.len() != "get_api_key_creation_form_schema"@.len());
    assert("shares"@[0] != "config"@[0]);
    assert("shares"@.len() != "settings"@.len());
    assert("shares"@.len() != "display"@.len());
    assert("shares"@.len() != "customization"@.len());
    assert("shares"@.len() != "internal_boot_context"@.len());
    assert("shares"@.len() != "me"@.len());
    assert("shares"@.len() != "owner"@.len());
    assert("shares"@.len() != "servers"@.len());
    assert("shares"@.len() != "is_fresh_install"@.len());
    assert("shares"@.len() != "public_theme"@.len());
    assert("shares"@.len() != "network_interfaces"@.len());
    assert("shares"@.len() != "time_zone_options"@.len());
    assert("shares"@.len() != "assignable_disks"@.len());
    assert("shares"@.len() != "plugin_install_operations"@.len());
    assert("shares"@.len() != "cloud"@.len());
    assert("shares"@.len() != "recalculate_overview"@.len());
    assert("shares"@.len() != "delete_archived_notifications"@.len());
    assert("shares"@.len() != "docker_update_all_containers"@.len());
    assert("shares"@.len() != "parity_check_pause"@.len());
    assert("shares"@.len() != "parity_check_resume"@.len());
    assert("shares"@.len() != "parity_check_cancel"@.len());
    assert("shares"@[0] != "docker"@[0]);
    assert("shares"@.len() != "vms"@.len());
    assert("notifications"@.len() != "array"@.len());
    assert("notifications"@.len() != "disks"@.len());
    assert("notifications"@.len() != "server"@.len());
    assert("notifications"@.len() != "info"@.len());
    assert("notifications"@.len() != "network"@.len());
    assert("notifications"@.len() != "ups_config"@.len());
    assert("notifications"@.len() != "metrics"@.len());
    assert("notifications"@.len() != "vars"@.len());
    assert("notifications"@.len() != "registration"@.len());
    assert("notifications"@.len() != "flash"@.len());
    assert("notifications"@.len() != "rclone"@.len());
    assert("notifications"@[0] != "remote_access"@[0]);
    assert("notifications"@.len() != "connect"@.len());
    assert("notifications"@.len() != "online"@.len());
    assert("notifications"@.len() != "system_time"@.len());
    assert("notifications"@.len() != "installed_unraid_plugins"@.len());
    assert("notifications"@.len() != "is_sso_enabled"@.len());
    assert("notifications"@.len() != "public_oidc_providers"@.len());
    assert("notifications"@.len() != "oidc_providers"@.len());
    assert("notifications"@.len() != "oidc_configuration"@.len());
    assert("notifications"@.len() != "api_keys"@.len());
    assert("notifications"@.len() != "api_key_possible_roles"@.len());
    assert("notifications"@.len() != "api_key_possible_permissions"@.len());
    assert("notifications"@.len() != "get_available_auth_actions"@.len());
    assert("notifications"@.len() != "get_api_key_creation_form_schema"@.len());
    assert("notifications"@.len() != "config"@.len());
    assert("notifications"@.len() != "settings"@.len());
    assert("notifications"@.len() != "display"@.len());
    assert("notifications"@[0] != "customization"@[0]);
    assert("notifications"@.len() != "internal_boot_context"@.len());
    assert("notifications"@.len() != "me"@.len());
    assert("notifications"@.len() != "owner"@.len());
    assert("notifications"@.len() != "servers"@.len());
    assert("notifications"@.len() != "is_fresh_install"@.len());
    assert("notifications"@.len() != "public_theme"@.len());
    assert("notifications"@.len() != "network_interfaces"@.len());
    assert("notifications"@.len() != "time_zone_options"@.len());
    assert("notifications"@.len() != "assignable_disks"@.len());
    assert("notifications"@.len() != "plugin_install_operations"@.len());
    assert("notifications"@.len() != "cloud"@.len());
    assert("notifications"@.len() != "recalculate_overview"@.len());
    assert("notifications"@.len() != "delete_archived_notifications"@.len());
    assert("notifications"@.len() != "docker_update_all_containers"@.len());
    assert("notifications"@.len() != "parity_check_pause"@.len());
    assert("notifications"@.len() != "parity_check_resume"@.len());
    assert("notifications"@.len() != "parity_check_cancel"@.len());
    assert("notifications"@.len() != "docker"@.len());
    assert("notifications"@.len() != "vms"@.len());
    assert("notifications"@.len() != "shares"@.len());
    assert("log_files"@.len() != "array"@.len());
    assert("log_files"@.len() != "disks"@.len());
    assert("log_files"@.len() != "server"@.len());
    assert("log_files"@.len() != "info"@.len());
    assert("log_files"@.len() != "network"@.len());
    assert("log_files"@.len() != "ups_config"@.len());
    assert("log_files"@.len() != "metrics"@.len());
    assert("log_files"@.len() != "vars"@.len());
    assert("log_files"@.len() != "registration"@.len());
    assert("log_files"@.len() != "flash"@.len());
    assert("log_files"@.len() != "rclone"@.len());
    assert("log_files"@.len() != "remote_access"@.len());
    assert("log_files"@.len() != "connect"@.len());
    assert("log_files"@.len() != "online"@.len());
    assert("log_files"@.len() != "system_time"@.len());
    assert("log_files"@.len() != "installed_unraid_plugins"@.len());
    assert("log_files"@.len() != "is_sso_enabled"@.len());
    assert("log_files"@.len() != "public_oidc_providers"@.len());
    assert("log_files"@.len() != "oidc_providers"@.len());
    assert("log_files"@.len() != "oidc_configuration"@.len());
    assert("log_files"@.len() != "api_keys"@.len());
    assert("log_files"@.len() != "api_key_possible_roles"@.len());
    assert("log_files"@.len() != "api_key_possible_permissions"@.len());
    assert("log_files"@.len() != "get_available_auth_actions"@.len());
    assert("log_files"@.len() != "get_api_key_creation_form_schema"@.len());
    assert("log_files"@.len() != "config"@.len());
    assert("log_files"@.len() != "settings"@.len());
    assert("log_files"@.len() != "display"@.len());
    assert("log_files"@.len() != "customization"@.len());
    assert("log_files"@.len() != "internal_boot_context"@.len());
    assert("log_files"@.len() != "me"@.len());
    assert("log_files"@.len() != "owner"@.len());
    assert("log_files"@.len() != "servers"@.len());
    assert("log_files"@.len() != "is_fresh_install"@.len());
    assert("log_files"@.len() != "public_theme"@.len());
    assert("log_files"@.len() != "network_interfaces"@.len());
    assert("log_files"@.len() != "time_zone_options"@.len());
    assert("log_files"@.len() != "assignable_disks"@.len());
    assert("log_files"@.len() != "plugin_install_operations"@.len());
    assert("log_files"@.len() != "cloud"@.len());
    assert("log_files"@.len() != "recalculate_overview"@.len());
    assert("log_files"@.len() != "delete_archived_notifications"@.len());
    assert("log_files"@.len() != "docker_update_all_containers"@.len());
    assert("log_files"@.len() != "parity_check_pause"@.len());
    assert("log_files"@.len() != "parity_check_resume"@.len());
    assert("log_files"@.len() != "parity_check_cancel"@.len());
    assert("log_files"@.len() != "docker"@.len());
    assert("log_files"@.len() != "vms"@.len());
    assert("log_files"@.len() != "shares"@.len());
    assert("log_files"@.len() != "notifications"@.len());
    assert("services"@.len() != "array"@.len());
    assert("services"@.len() != "disks"@.len());
    assert("services"@.len() != "server"@.len());
    assert("services"@.len() != "info"@.len());
    assert("services"@.len() != "network"@.len());
    assert("services"@.len() != "ups_config"@.len());
    assert("services"@.len() != "metrics"@.len());
    assert("services"@.len() != "vars"@.len());
    assert("services"@.len() != "registration"@.len());
    assert("services"@.len() != "flash"@.len());
    assert("services"@.len() != "rclone"@.len());
    assert("services"@.len() != "remote_access"@.len());
    assert("services"@.len() != "connect"@.len());
    assert("services"@.len() != "online"@.len());
    assert("services"@.len() != "system_time"@.len());
    assert("services"@.len() != "installed_unraid_plugins"@.len());
    assert("services"@.len() != "is_sso_enabled"@.len());
    assert("services"@.len() != "public_oidc_providers"@.len());
    assert("services"@.len() != "oidc_providers"@.len());
    assert("services"@.len() != "oidc_configuration"@.len());
    assert("services"@[0] != "api_keys"@[0]);
    assert("services"@.len() != "api_key_possible_roles"@.len());
    assert("services"@.len() != "api_key_possible_permissions"@.len());
    assert("services"@.len() != "get_available_auth_actions"@.len());
    assert("services"@.len() != "get_api_key_creation_form_schema"@.len());
    assert("services"@.len() != "config"@.len());
    assert("services"@[2] != "settings"@[2]);
    assert("services"@.len() != "display"@.len());
    assert("services"@.len() != "customization"@.len());
    assert("services"@.len() != "internal_boot_context"@.len());
    assert("services"@.len() != "me"@.len());
    assert("services"@.len() != "owner"@.len());
    assert("services"@.len() != "servers"@.len());
    assert("services"@.len() != "is_fresh_install"@.len());
    assert("services"@.len() != "public_theme"@.len());
    assert("services"@.len() != "network_interfaces"@.len());
    assert("services"@.len() != "time_zone_options"@.len());
    assert("services"@.len() != "assignable_disks"@.len());
    assert("services"@.len() != "plugin_install_operations"@.len());
    assert("services"@.len() != "cloud"@.len());
    assert("services"@.len() != "recalculate_overview"@.len());
    assert("services"@.len() != "delete_archived_notifications"@.len());
    assert("services"@.len() != "docker_update_all_containers"@.len());
    assert("services"@.len() != "parity_check_pause"@.len());
    assert("services"@.len() != "parity_check_resume"@.len());
    assert("services"@.len() != "parity_check_cancel"@.len());
    assert("services"@.len() != "docker"@.len());
    assert("services"@.len() != "vms"@.len());
    assert("services"@.len() != "shares"@.len());
    assert("services"@.len() != "notifications"@.len());
    assert("services"@.len() != "log_files"@.len());
    assert("ups"@.len() != "array"@.len());
    assert("ups"@.len() != "disks"@.len());
    assert("ups"@.len() != "server"@.len());
    assert("ups"@.len() != "info"@.len());
    assert("ups"@.len() != "network"@.len());
    assert("ups"@.len() != "ups_config"@.len());
    assert("ups"@.len() != "metrics"@.len());
    assert("ups"@.len() != "vars"@.len());
    assert("ups"@.len() != "registration"@.len());
    assert("ups"@.len() != "flash"@.len());
    assert("ups"@.len() != "rclone"@.len());
    assert("ups"@.len() != "remote_access"@.len());
    assert("ups"@.len() != "connect"@.len());
    assert("ups"@.len() != "online"@.len());
    assert("ups"@.len() != "system_time"@.len());
    assert("ups"@.len() != "installed_unraid_plugins"@.len());
    assert("ups"@.len() != "is_sso_enabled"@.len());
    assert("ups"@.len() != "public_oidc_providers"@.len());
    assert("ups"@.len() != "oidc_providers"@.len());
    assert("ups"@.len() != "oidc_configuration"@.len());
    assert("ups"@.len() != "api_keys"@.len());
    assert("ups"@.len() != "api_key_possible_roles"@.len());
    assert("ups"@.len() != "api_key_possible_permissions"@.len());
    assert("ups"@.len() != "get_available_auth_actions"@.len());
    assert("ups"@.len() != "get_api_key_creation_form_schema"@.len());
    assert("ups"@.len() != "config"@.len());
    assert("ups"@.len() != "settings"@.len());
    assert("ups"@.len() != "display"@.len());
    assert("ups"@.len() != "customization"@.len());
    assert("ups"@.len() != "internal_boot_context"@.len());
    assert("ups"@.len() != "me"@.len());
    assert("ups"@.len() != "owner"@.len());
    assert("ups"@.len() != "servers"@.len());
    assert("ups"@.len() != "is_fresh_install"@.len());
    assert("ups"@.len() != "public_theme"@.len());
    assert("ups"@.len() != "network_interfaces"@.len());
    assert("ups"@.len() != "time_zone_options"@.len());
    assert("ups"@.len() != "assignable_disks"@.len());
    assert("ups"@.len() != "plugin_install_operations"@.len());
    assert("ups"@.len() != "cloud"@.len());
    assert("ups"@.len() != "recalculate_overview"@.len());
    assert("ups"@.len() != "delete_archived_notifications"@.len());
    assert("ups"@.len() != "docker_update_all_containers"@.len());
    assert("ups"@.len() != "parity_check_pause"@.len());
    assert("ups"@.len() != "parity_check_resume"@.len());
    assert("ups"@.len() != "parity_check_cancel"@.len());
    assert("ups"@.len() != "docker"@.len());
    assert("ups"@[0] != "vms"@[0]);
    assert("ups"@.len() != "shares"@.len());
    assert("ups"@.len() != "notifications"@.len());
    assert("ups"@.len() != "log_files"@.len());
    assert("ups"@.len() != "services"@.len());
    assert("plugins"@.len() != "array"@.len());
    assert("plugins"@.len() != "disks"@.len());
    assert("plugins"@.len() != "server"@.len());
    assert("plugins"@.len() != "info"@.len());
    assert("plugins"@[0] != "network"@[0]);
    assert("plugins"@.len() != "ups_config"@.len());
    assert("plugins"@[0] != "metrics"@[0]);
    assert("plugins"@.len() != "vars"@.len());
    assert("plugins"@.len() != "registration"@.len());
    assert("plugins"@.len() != "flash"@.len());
    assert("plugins"@.len() != "rclone"@.len());
    assert("plugins"@.len() != "remote_access"@.len());
    assert("plugins"@[0] != "connect"@[0]);
    assert("plugins"@.len() != "online"@.len());
    assert("plugins"@.len() != "system_time"@.len());
    assert("plugins"@.len() != "installed_unraid_plugins"@.len());
    assert("plugins"@.len() != "is_sso_enabled"@.len());
    assert("plugins"@.len() != "public_oidc_providers"@.len());
    assert("plugins"@.len() != "oidc_providers"@.len());
    assert("plugins"@.len() != "oidc_configuration"@.len());
    assert("plugins"@.len() != "api_keys"@.len());
    assert("plugins"@.len() != "api_key_possible_roles"@.len());
    assert("plugins"@.len() != "api_key_possible_permissions"@.len());
    assert("plugins"@.len() != "get_available_auth_actions"@.len());
    assert("plugins"@.len() != "get_api_key_creation_form_schema"@.len());
    assert("plugins"@.len() != "config"@.len());
    assert("plugins"@.len() != "settings"@.len());
    assert("plugins"@[0] != "display"@[0]);
    assert("plugins"@.len() != "customization"@.len());
    assert("plugins"@.len() != "internal_boot_context"@.len());
    assert("plugins"@.len() != "me"@.len());
    assert("plugins"@.len() != "owner"@.len());
    assert("plugins"@[0] != "servers"@[0]);
    assert("plugins"@.len() != "is_fresh_install"@.len());
    assert("plugins"@.len() != "public_theme"@.len());
    assert("plugins"@.len() != "network_interfaces"@.len());
    assert("plugins"@.len() != "time_zone_options"@.len());
    assert("plugins"@.len() != "assignable_disks"@.len());
    assert("plugins"@.len() != "plugin_install_operations"@.len());
    assert("plugins"@.len() != "cloud"@.len());
    assert("plugins"@.len() != "recalculate_overview"@.len());
    assert("plugins"@.len() != "delete_archived_notifications"@.len());
    assert("plugins"@.len() != "docker_update_all_containers"@.len());
    assert("plugins"@.len() != "parity_check_pause"@.len());
    assert("plugins"@.len() != "parity_check_resume"@.len());
    assert("plugins"@.len() != "parity_check_cancel"@.len());
    assert("plugins"@.len() != "docker"@.len());
    assert("plugins"@.len() != "vms"@.len());
    assert("plugins"@.len() != "shares"@.len());
    assert("plugins"@.len() != "notifications"@.len());
    assert("plugins"@.len() != "log_files"@.len());
    assert("plugins"@.len() != "services"@.len());
    assert("plugins"@.len() != "ups"@.len());
    assert("parity_history"@.len() != "array"@.len());
    assert("parity_history"@.len() != "disks"@.len());
    assert("parity_history"@.len() != "server"@.len());
    assert("parity_history"@.len() != "info"@.len());
    assert("parity_history"@.len() != "network"@.len());
    assert("parity_history"@.len() != "ups_config"@.len());
    assert("parity_history"@.len() != "metrics"@.len());
    assert("parity_history"@.len() != "vars"@.len());
    assert("parity_history"@.len() != "registration"@.len());
    assert("parity_history"@.len() != "flash"@.len());
    assert("parity_history"@.len() != "rclone"@.len());
    assert("parity_history"@.len() != "remote_access"@.len());
    assert("parity_history"@.len() != "connect"@.len());
    assert("parity_history"@.len() != "online"@.len());
    assert("parity_history"@.len() != "system_time"@.len());
    assert("parity_history"@.len() != "installed_unraid_plugins"@.len());
    assert("parity_history"@[0] != "is_sso_enabled"@[0]);
    assert("parity_history"@.len() != "public_oidc_providers"@.len());
    assert("parity_history"@[0] != "oidc_providers"@[0]);
    assert("parity_history"@.len() != "oidc_configuration"@.len());
    assert("parity_history"@.len() != "api_keys"@.len());
    assert("parity_history"@.len() != "api_key_possible_roles"@.len());
    assert("parity_history"@.len() != "api_key_possible_permissions"@.len());
    assert("parity_history"@.len() != "get_available_auth_actions"@.len());
    assert("parity_history"@.len() != "get_api_key_creation_form_schema"@.len());
    assert("parity_history"@.len() != "config"@.len());
    assert("parity_history"@.len() != "settings"@.len());
    assert("parity_history"@.len() != "display"@.len());
    assert("parity_history"@.len() != "customization"@.len());
    assert("parity_history"@.len() != "internal_boot_context"@.len());
    assert("parity_history"@.len() != "me"@.len());
    assert("parity_history"@.len() != "owner"@.len());
    assert("parity_history"@.len() != "servers"@.len());
    assert("parity_history"@.len() != "is_fresh_install"@.len());
    assert("parity_history"@.len() != "public_theme"@.len());
    assert("parity_history"@.len() != "network_interfaces"@.len());
    assert("parity_history"@.len() != "time_zone_options"@.len());
    assert("parity_history"@.len() != "assignable_disks"@.len());
    assert("parity_history"@.len() != "plugin_install_operations"@.len());
    assert("parity_history"@.len() != "cloud"@.len());
    assert("parity_history"@.len() != "recalculate_overview"@.len());
    assert("parity_history"@.len() != "delete_archived_notifications"@.len());
    assert("parity_history"@.len() != "docker_update_all_containers"@.len());
    assert("parity_history"@.len() != "parity_check_pause"@.len());
    assert("parity_history"@.len() != "parity_check_resume"@.len());
    assert("parity_history"@.len() != "parity_check_cancel"@.len());
    assert("parity_history"@.len() != "docker"@.len());
    assert("parity_history"@.len() != "vms"@.len());
    assert("parity_history"@.len() != "shares"@.len());
    assert("parity_history"@.len() != "notifications"@.len());
    assert("parity_history"@.len() != "log_files"@.len());
    assert("parity_history"@.len() != "services"@.len());
    assert("parity_history"@.len() != "ups"@.len());
    assert("parity_history"@.len() != "plugins"@.len());
}

/// The boolean value of the first member named `name`, read off the entries.
pub open spec fn given_bool(args: ToolArgs, name: Seq<char>) -> Option<bool> {
    match spec_get(args.entries@, name) {
        Some(ArgValue::Bool(b)) => Some(b),
        _ => None,
    }
}

/// The `slot` argument when it is an integer that fits `i64`, read off the
/// entries and truncated to `i32` (as a cast does).
pub open spec fn given_slot(args: ToolArgs) -> Option<i32> {
    match spec_get(args.entries@, "slot"@) {
        Some(ArgValue::Number(n)) => match n.as_i64 {
            Some(v) => Some(v as i32),
            None => None,
        },
        _ => None,
    }
}

/// Every planned call receives the caller's arguments as given: identifiers from
/// `id` (the session token from `token`, the array state from `desired_state`),
/// the log path from `path`, the array slot from `slot`, the notification fields from their own arguments,
/// and the booleans `correct` (a plain check unless `true` is given) and
/// `with_image` as the JSON booleans passed.
pub proof fn lemma_planned_calls_carry_arguments(a: Seq<char>, args: ToolArgs)
    ensures
        spec_plan_action(a, args) matches PlanOutcome::Ready(ActionPlan::Call { call, page: _ }) ==> match call {
            ServiceCall::ValidateOidcSession(t) => Some(t) == given_string(args, "token"@),
            ServiceCall::ArraySetState(ds) => Some(ds) == given_string(args, "desired_state"@),
            ServiceCall::DockerLogs { id, tail: _ } => Some(id) == given_string(args, "id"@),
            ServiceCall::LogFile { path, lines: _, start_line: _ } => Some(path) == given_string(args, "path"@),
            ServiceCall::CreateNotification { title, subject, description, importance, link } => {
                &&& Some(title) == given_string(args, "title"@)
                &&& Some(subject) == given_string(args, "subject"@)
                &&& Some(description) == given_string(args, "description"@)
                &&& Some(importance) == given_string(args, "importance"@)
                &&& link == given_string(args, "link"@)
            },
            ServiceCall::ParityCheckStart(b) => b == (given_bool(args, "correct"@) == Some(true)),
            ServiceCall::DockerRemoveContainer { id, with_image } => Some(id) == given_string(args, "id"@)
                && with_image == given_bool(args, "with_image"@),
            ServiceCall::ArrayAddDiskToArray { id, slot } => Some(id) == given_string(args, "id"@) && slot
                == given_slot(args),
            ServiceCall::ArrayRemoveDiskFromArray { id, slot } => Some(id) == given_string(args, "id"@) && slot
                == given_slot(args),
            _ => spec_call_argument(call) is Some ==> spec_call_argument(call) == given_string(args, "id"@),
        },
{
}

/// The documentation the `help` action returns.
pub const HELP_TEXT: &'static str = r#"# unraid MCP Tool

Read-only access to the Unraid server via its GraphQL API.
Set the required `action` argument to select the operation.

## Core
- `array`          — Array state, disk health, parity, capacity
- `disks`          — Physical disks with SMART status and temps
- `docker`         — All Docker containers (supports limit, offset, state filter)
- `docker_logs`    — Container logs (requires `id`, optional `tail`)
                     Hint: call action=docker first to get a container id.
- `vms`            — Virtual machines and state (supports limit, offset)
- `server`         — Server identity, IPs, online status
- `info`           — OS, CPU, memory, Unraid/kernel versions
- `shares`         — User shares with sizes and cache settings (supports limit, offset, name filter)
- `notifications`  — Active warnings/alerts and overview counts (supports limit, offset)

## System
- `services`       — Running system services and uptime (supports limit, offset)
- `network`        — Network access URLs
- `metrics`        — Live CPU, memory, and temperature readings
- `vars`           — System configuration variables
- `registration`   — License registration state and expiry
- `flash`          — USB flash drive info

## Logs
- `log_files`      — List available log files with sizes (supports limit, offset)
                     Hint: call this first to get valid paths for action=log_file.
- `log_file`       — Read a log file (requires `path`, optional `lines`, `start_line`)

## Storage
- `parity_history` — All past parity check results (supports limit, offset)
- `rclone`         — Backup remote configurations

## UPS
- `ups`            — UPS devices: battery, power, status (supports limit, offset)
- `ups_config`     — UPS monitoring configuration

## Remote access
- `remote_access`  — WAN access type, port forwarding config
- `connect`        — Unraid Connect dynamic remote access status

## Plugins
- `plugins`        — Installed community plugins with versions (supports limit, offset, name filter)

## Observability
- `status`         — Server runtime state, request counters, pid

## Pagination (for list actions)
Pass `limit` (default 50, max 200) and `offset` (default 0) to page through results.
Response shape: {items, total, limit, offset, has_more, next_offset}

## Meta
- `help`           — This documentation
"#;

} // verus!
