//! The canonical catalogue of `unraid` tool actions and the scope each requires.
//!
//! Everything else (the JSON Schema enum, the list of valid actions quoted in
//! error messages, the data/write action lists) is derived from this one table.

use vstd::prelude::*;
use crate::text::{join, join_strs, str_eq, str_views};

verus! {

/// Scope an action requires. `unraid:admin` satisfies `unraid:read`, so a
/// read-scoped token cannot reach a [`Scope::Write`] (mutating) action.
#[derive(Clone, Copy, Debug, PartialEq, Eq, Structural)]
pub enum Scope {
    /// No scope required (the `help` meta action).
    Unscoped,
    /// `unraid:read`: every data query action, plus `status`.
    Read,
    /// `unraid:admin`: mutating actions that change server state.
    Write,
}

/// Canonical specification for one `unraid` tool action.
#[derive(Clone, Copy, Debug)]
pub struct ActionSpec {
    /// The action name as passed in the `action` argument.
    pub name: &'static str,
    /// The scope this action requires.
    pub scope: Scope,
}

/// The canonical action list, in documented order.
pub open spec fn spec_actions() -> Seq<ActionSpec> {
    seq![
        ActionSpec { name: "array", scope: Scope::Read },
        ActionSpec { name: "disks", scope: Scope::Read },
        ActionSpec { name: "docker", scope: Scope::Read },
        ActionSpec { name: "docker_logs", scope: Scope::Read },
        ActionSpec { name: "vms", scope: Scope::Read },
        ActionSpec { name: "server", scope: Scope::Read },
        ActionSpec { name: "info", scope: Scope::Read },
        ActionSpec { name: "shares", scope: Scope::Read },
        ActionSpec { name: "notifications", scope: Scope::Read },
        ActionSpec { name: "log_files", scope: Scope::Read },
        ActionSpec { name: "log_file", scope: Scope::Read },
        ActionSpec { name: "services", scope: Scope::Read },
        ActionSpec { name: "network", scope: Scope::Read },
        ActionSpec { name: "ups", scope: Scope::Read },
        ActionSpec { name: "ups_config", scope: Scope::Read },
        ActionSpec { name: "metrics", scope: Scope::Read },
        ActionSpec { name: "plugins", scope: Scope::Read },
        ActionSpec { name: "parity_history", scope: Scope::Read },
        ActionSpec { name: "vars", scope: Scope::Read },
        ActionSpec { name: "registration", scope: Scope::Read },
        ActionSpec { name: "flash", scope: Scope::Read },
        ActionSpec { name: "rclone", scope: Scope::Read },
        ActionSpec { name: "remote_access", scope: Scope::Read },
        ActionSpec { name: "connect", scope: Scope::Read },
        ActionSpec { name: "online", scope: Scope::Read },
        ActionSpec { name: "system_time", scope: Scope::Read },
        ActionSpec { name: "installed_unraid_plugins", scope: Scope::Read },
        ActionSpec { name: "is_sso_enabled", scope: Scope::Read },
        ActionSpec { name: "public_oidc_providers", scope: Scope::Read },
        ActionSpec { name: "oidc_providers", scope: Scope::Read },
        ActionSpec { name: "oidc_configuration", scope: Scope::Read },
        ActionSpec { name: "api_keys", scope: Scope::Read },
        ActionSpec { name: "api_key_possible_roles", scope: Scope::Read },
        ActionSpec { name: "api_key_possible_permissions", scope: Scope::Read },
        ActionSpec { name: "get_available_auth_actions", scope: Scope::Read },
        ActionSpec { name: "get_api_key_creation_form_schema", scope: Scope::Read },
        ActionSpec { name: "config", scope: Scope::Read },
        ActionSpec { name: "settings", scope: Scope::Read },
        ActionSpec { name: "display", scope: Scope::Read },
        ActionSpec { name: "customization", scope: Scope::Read },
        ActionSpec { name: "internal_boot_context", scope: Scope::Read },
        ActionSpec { name: "me", scope: Scope::Read },
        ActionSpec { name: "owner", scope: Scope::Read },
        ActionSpec { name: "servers", scope: Scope::Read },
        ActionSpec { name: "is_fresh_install", scope: Scope::Read },
        ActionSpec { name: "public_theme", scope: Scope::Read },
        ActionSpec { name: "network_interfaces", scope: Scope::Read },
        ActionSpec { name: "time_zone_options", scope: Scope::Read },
        ActionSpec { name: "assignable_disks", scope: Scope::Read },
        ActionSpec { name: "plugin_install_operations", scope: Scope::Read },
        ActionSpec { name: "cloud", scope: Scope::Read },
        ActionSpec { name: "api_key", scope: Scope::Read },
        ActionSpec { name: "disk", scope: Scope::Read },
        ActionSpec { name: "oidc_provider", scope: Scope::Read },
        ActionSpec { name: "ups_device_by_id", scope: Scope::Read },
        ActionSpec { name: "plugin_install_operation", scope: Scope::Read },
        ActionSpec { name: "validate_oidc_session", scope: Scope::Read },
        ActionSpec { name: "get_permissions_for_roles", scope: Scope::Read },
        ActionSpec { name: "recalculate_overview", scope: Scope::Write },
        ActionSpec { name: "delete_archived_notifications", scope: Scope::Write },
        ActionSpec { name: "archive_notification", scope: Scope::Write },
        ActionSpec { name: "create_notification", scope: Scope::Write },
        ActionSpec { name: "vm_start", scope: Scope::Write },
        ActionSpec { name: "vm_stop", scope: Scope::Write },
        ActionSpec { name: "vm_pause", scope: Scope::Write },
        ActionSpec { name: "vm_resume", scope: Scope::Write },
        ActionSpec { name: "vm_force_stop", scope: Scope::Write },
        ActionSpec { name: "vm_reboot", scope: Scope::Write },
        ActionSpec { name: "vm_reset", scope: Scope::Write },
        ActionSpec { name: "docker_start", scope: Scope::Write },
        ActionSpec { name: "docker_stop", scope: Scope::Write },
        ActionSpec { name: "docker_pause", scope: Scope::Write },
        ActionSpec { name: "docker_unpause", scope: Scope::Write },
        ActionSpec { name: "docker_update_container", scope: Scope::Write },
        ActionSpec { name: "docker_remove_container", scope: Scope::Write },
        ActionSpec { name: "docker_update_containers", scope: Scope::Write },
        ActionSpec { name: "docker_update_all_containers", scope: Scope::Write },
        ActionSpec { name: "array_set_state", scope: Scope::Write },
        ActionSpec { name: "array_add_disk_to_array", scope: Scope::Write },
        ActionSpec { name: "array_remove_disk_from_array", scope: Scope::Write },
        ActionSpec { name: "array_mount_array_disk", scope: Scope::Write },
        ActionSpec { name: "array_unmount_array_disk", scope: Scope::Write },
        ActionSpec { name: "array_clear_array_disk_statistics", scope: Scope::Write },
        ActionSpec { name: "parity_check_start", scope: Scope::Write },
        ActionSpec { name: "parity_check_pause", scope: Scope::Write },
        ActionSpec { name: "parity_check_resume", scope: Scope::Write },
        ActionSpec { name: "parity_check_cancel", scope: Scope::Write },
        ActionSpec { name: "status", scope: Scope::Read },
        ActionSpec { name: "help", scope: Scope::Unscoped }
    ]
}

/// The canonical action list as a vector.
pub fn actions() -> (r: Vec<ActionSpec>)
    ensures
        r@ == spec_actions(),
{
    let v = vec![
        ActionSpec { name: "array", scope: Scope::Read },
        ActionSpec { name: "disks", scope: Scope::Read },
        ActionSpec { name: "docker", scope: Scope::Read },
        ActionSpec { name: "docker_logs", scope: Scope::Read },
        ActionSpec { name: "vms", scope: Scope::Read },
        ActionSpec { name: "server", scope: Scope::Read },
        ActionSpec { name: "info", scope: Scope::Read },
        ActionSpec { name: "shares", scope: Scope::Read },
        ActionSpec { name: "notifications", scope: Scope::Read },
        ActionSpec { name: "log_files", scope: Scope::Read },
        ActionSpec { name: "log_file", scope: Scope::Read },
        ActionSpec { name: "services", scope: Scope::Read },
        ActionSpec { name: "network", scope: Scope::Read },
        ActionSpec { name: "ups", scope: Scope::Read },
        ActionSpec { name: "ups_config", scope: Scope::Read },
        ActionSpec { name: "metrics", scope: Scope::Read },
        ActionSpec { name: "plugins", scope: Scope::Read },
        ActionSpec { name: "parity_history", scope: Scope::Read },
        ActionSpec { name: "vars", scope: Scope::Read },
        ActionSpec { name: "registration", scope: Scope::Read },
        ActionSpec { name: "flash", scope: Scope::Read },
        ActionSpec { name: "rclone", scope: Scope::Read },
        ActionSpec { name: "remote_access", scope: Scope::Read },
        ActionSpec { name: "connect", scope: Scope::Read },
        ActionSpec { name: "online", scope: Scope::Read },
        ActionSpec { name: "system_time", scope: Scope::Read },
        ActionSpec { name: "installed_unraid_plugins", scope: Scope::Read },
        ActionSpec { name: "is_sso_enabled", scope: Scope::Read },
        ActionSpec { name: "public_oidc_providers", scope: Scope::Read },
        ActionSpec { name: "oidc_providers", scope: Scope::Read },
        ActionSpec { name: "oidc_configuration", scope: Scope::Read },
        ActionSpec { name: "api_keys", scope: Scope::Read },
        ActionSpec { name: "api_key_possible_roles", scope: Scope::Read },
        ActionSpec { name: "api_key_possible_permissions", scope: Scope::Read },
        ActionSpec { name: "get_available_auth_actions", scope: Scope::Read },
        ActionSpec { name: "get_api_key_creation_form_schema", scope: Scope::Read },
        ActionSpec { name: "config", scope: Scope::Read },
        ActionSpec { name: "settings", scope: Scope::Read },
        ActionSpec { name: "display", scope: Scope::Read },
        ActionSpec { name: "customization", scope: Scope::Read },
        ActionSpec { name: "internal_boot_context", scope: Scope::Read },
        ActionSpec { name: "me", scope: Scope::Read },
        ActionSpec { name: "owner", scope: Scope::Read },
        ActionSpec { name: "servers", scope: Scope::Read },
        ActionSpec { name: "is_fresh_install", scope: Scope::Read },
        ActionSpec { name: "public_theme", scope: Scope::Read },
        ActionSpec { name: "network_interfaces", scope: Scope::Read },
        ActionSpec { name: "time_zone_options", scope: Scope::Read },
        ActionSpec { name: "assignable_disks", scope: Scope::Read },
        ActionSpec { name: "plugin_install_operations", scope: Scope::Read },
        ActionSpec { name: "cloud", scope: Scope::Read },
        ActionSpec { name: "api_key", scope: Scope::Read },
        ActionSpec { name: "disk", scope: Scope::Read },
        ActionSpec { name: "oidc_provider", scope: Scope::Read },
        ActionSpec { name: "ups_device_by_id", scope: Scope::Read },
        ActionSpec { name: "plugin_install_operation", scope: Scope::Read },
        ActionSpec { name: "validate_oidc_session", scope: Scope::Read },
        ActionSpec { name: "get_permissions_for_roles", scope: Scope::Read },
        ActionSpec { name: "recalculate_overview", scope: Scope::Write },
        ActionSpec { name: "delete_archived_notifications", scope: Scope::Write },
        ActionSpec { name: "archive_notification", scope: Scope::Write },
        ActionSpec { name: "create_notification", scope: Scope::Write },
        ActionSpec { name: "vm_start", scope: Scope::Write },
        ActionSpec { name: "vm_stop", scope: Scope::Write },
        ActionSpec { name: "vm_pause", scope: Scope::Write },
        ActionSpec { name: "vm_resume", scope: Scope::Write },
        ActionSpec { name: "vm_force_stop", scope: Scope::Write },
        ActionSpec { name: "vm_reboot", scope: Scope::Write },
        ActionSpec { name: "vm_reset", scope: Scope::Write },
        ActionSpec { name: "docker_start", scope: Scope::Write },
        ActionSpec { name: "docker_stop", scope: Scope::Write },
        ActionSpec { name: "docker_pause", scope: Scope::Write },
        ActionSpec { name: "docker_unpause", scope: Scope::Write },
        ActionSpec { name: "docker_update_container", scope: Scope::Write },
        ActionSpec { name: "docker_remove_container", scope: Scope::Write },
        ActionSpec { name: "docker_update_containers", scope: Scope::Write },
        ActionSpec { name: "docker_update_all_containers", scope: Scope::Write },
        ActionSpec { name: "array_set_state", scope: Scope::Write },
        ActionSpec { name: "array_add_disk_to_array", scope: Scope::Write },
        ActionSpec { name: "array_remove_disk_from_array", scope: Scope::Write },
        ActionSpec { name: "array_mount_array_disk", scope: Scope::Write },
        ActionSpec { name: "array_unmount_array_disk", scope: Scope::Write },
        ActionSpec { name: "array_clear_array_disk_statistics", scope: Scope::Write },
        ActionSpec { name: "parity_check_start", scope: Scope::Write },
        ActionSpec { name: "parity_check_pause", scope: Scope::Write },
        ActionSpec { name: "parity_check_resume", scope: Scope::Write },
        ActionSpec { name: "parity_check_cancel", scope: Scope::Write },
        ActionSpec { name: "status", scope: Scope::Read },
        ActionSpec { name: "help", scope: Scope::Unscoped }
    ];
    assert(v@ =~= spec_actions());
    v
}


/// No two entries of a sequence of action specs share a name.
pub open spec fn names_distinct(s: Seq<ActionSpec>) -> bool {
    forall|i: int, j: int| 0 <= i < j < s.len() ==> s[i].name@ != s[j].name@
}

/// Every action name in the catalogue is unique.
pub proof fn lemma_action_names_distinct()
    ensures
        names_distinct(spec_actions()),
{
    reveal_strlit("array");
    reveal_strlit("disks");
    reveal_strlit("docker");
    reveal_strlit("docker_logs");
    reveal_strlit("vms");
    reveal_strlit("server");
    reveal_strlit("info");
    reveal_strlit("shares");
    reveal_strlit("notifications");
    reveal_strlit("log_files");
    reveal_strlit("log_file");
    reveal_strlit("services");
    reveal_strlit("network");
    reveal_strlit("ups");
    reveal_strlit("ups_config");
    reveal_strlit("metrics");
    reveal_strlit("plugins");
    reveal_strlit("parity_history");
    reveal_strlit("vars");
    reveal_strlit("registration");
    reveal_strlit("flash");
    reveal_strlit("rclone");
    reveal_strlit("remote_access");
    reveal_strlit("connect");
    reveal_strlit("online");
    reveal_strlit("system_time");
    reveal_strlit("installed_unraid_plugins");
    reveal_strlit("is_sso_enabled");
    reveal_strlit("public_oidc_providers");
    reveal_strlit("oidc_providers");
    reveal_strlit("oidc_configuration");
    reveal_strlit("api_keys");
    reveal_strlit("api_key_possible_roles");
    reveal_strlit("api_key_possible_permissions");
    reveal_strlit("get_available_auth_actions");
    reveal_strlit("get_api_key_creation_form_schema");
    reveal_strlit("config");
    reveal_strlit("settings");
    reveal_strlit("display");
    reveal_strlit("customization");
    reveal_strlit("internal_boot_context");
    reveal_strlit("me");
    reveal_strlit("owner");
    reveal_strlit("servers");
    reveal_strlit("is_fresh_install");
    reveal_strlit("public_theme");
    reveal_strlit("network_interfaces");
    reveal_strlit("time_zone_options");
    reveal_strlit("assignable_disks");
    reveal_strlit("plugin_install_operations");
    reveal_strlit("cloud");
    reveal_strlit("api_key");
    reveal_strlit("disk");
    reveal_strlit("oidc_provider");
    reveal_strlit("ups_device_by_id");
    reveal_strlit("plugin_install_operation");
    reveal_strlit("validate_oidc_session");
    reveal_strlit("get_permissions_for_roles");
    reveal_strlit("recalculate_overview");
    reveal_strlit("delete_archived_notifications");
    reveal_strlit("archive_notification");
    reveal_strlit("create_notification");
    reveal_strlit("vm_start");
    reveal_strlit("vm_stop");
    reveal_strlit("vm_pause");
    reveal_strlit("vm_resume");
    reveal_strlit("vm_force_stop");
    reveal_strlit("vm_reboot");
    reveal_strlit("vm_reset");
    reveal_strlit("docker_start");
    reveal_strlit("docker_stop");
    reveal_strlit("docker_pause");
    reveal_strlit("docker_unpause");
    reveal_strlit("docker_update_container");
    reveal_strlit("docker_remove_container");
    reveal_strlit("docker_update_containers");
    reveal_strlit("docker_update_all_containers");
    reveal_strlit("array_set_state");
    reveal_strlit("array_add_disk_to_array");
    reveal_strlit("array_remove_disk_from_array");
    reveal_strlit("array_mount_array_disk");
    reveal_strlit("array_unmount_array_disk");
    reveal_strlit("array_clear_array_disk_statistics");
    reveal_strlit("parity_check_start");
    reveal_strlit("parity_check_pause");
    reveal_strlit("parity_check_resume");
    reveal_strlit("parity_check_cancel");
    reveal_strlit("status");
    reveal_strlit("help");
    let s = spec_actions();
    assert forall|i: int, j: int| 0 <= i < j < s.len() implies s[i].name@ != s[j].name@ by {
        if s[i].name@.len() == s[j].name@.len() {
            let _a0 = s[i].name@[0]; let _b0 = s[j].name@[0];
            let _a1 = s[i].name@[1]; let _b1 = s[j].name@[1];
            let _a2 = s[i].name@[2]; let _b2 = s[j].name@[2];
            let _a3 = s[i].name@[3]; let _b3 = s[j].name@[3];
            let _a4 = s[i].name@[4]; let _b4 = s[j].name@[4];
            let _a5 = s[i].name@[5]; let _b5 = s[j].name@[5];
            let _a6 = s[i].name@[6]; let _b6 = s[j].name@[6];
            let _a7 = s[i].name@[7]; let _b7 = s[j].name@[7];
            let _a8 = s[i].name@[8]; let _b8 = s[j].name@[8];
            let _a9 = s[i].name@[9]; let _b9 = s[j].name@[9];
            let _a10 = s[i].name@[10]; let _b10 = s[j].name@[10];
            let _a11 = s[i].name@[11]; let _b11 = s[j].name@[11];
            let _a12 = s[i].name@[12]; let _b12 = s[j].name@[12];
            let _a13 = s[i].name@[13]; let _b13 = s[j].name@[13];
            let _a14 = s[i].name@[14]; let _b14 = s[j].name@[14];
            let _a15 = s[i].name@[15]; let _b15 = s[j].name@[15];
            let _a16 = s[i].name@[16]; let _b16 = s[j].name@[16];
            let _a17 = s[i].name@[17]; let _b17 = s[j].name@[17];
            let _a18 = s[i].name@[18]; let _b18 = s[j].name@[18];
            let _a19 = s[i].name@[19]; let _b19 = s[j].name@[19];
            let _a20 = s[i].name@[20]; let _b20 = s[j].name@[20];
            let _a21 = s[i].name@[21]; let _b21 = s[j].name@[21];
            let _a22 = s[i].name@[22]; let _b22 = s[j].name@[22];
            let _a23 = s[i].name@[23]; let _b23 = s[j].name@[23];
            let _a24 = s[i].name@[24]; let _b24 = s[j].name@[24];
            let _a25 = s[i].name@[25]; let _b25 = s[j].name@[25];
            let _a26 = s[i].name@[26]; let _b26 = s[j].name@[26];
            let _a27 = s[i].name@[27]; let _b27 = s[j].name@[27];
            let _a28 = s[i].name@[28]; let _b28 = s[j].name@[28];
            let _a29 = s[i].name@[29]; let _b29 = s[j].name@[29];
            let _a30 = s[i].name@[30]; let _b30 = s[j].name@[30];
            let _a31 = s[i].name@[31]; let _b31 = s[j].name@[31];
            let _a32 = s[i].name@[32]; let _b32 = s[j].name@[32];
        }
    }
}


/// A data action: read-scoped and backed by an upstream query (everything
/// read-scoped except the local `status` action).
pub open spec fn is_data_action(a: ActionSpec) -> bool {
    a.scope == Scope::Read && a.name@ != "status"@
}

/// A mutating (write-scoped) action.
pub open spec fn is_write_action(a: ActionSpec) -> bool {
    a.scope == Scope::Write
}

/// Which group of actions a derived name list selects.
#[derive(Clone, Copy, PartialEq, Eq, Structural)]
pub enum ActionGroup {
    /// Read-scoped upstream-backed actions.
    Data,
    /// Write-scoped (mutating) actions.
    Write,
}

/// Whether `a` belongs to group `g`.
pub open spec fn in_group(a: ActionSpec, g: ActionGroup) -> bool {
    match g {
        ActionGroup::Data => is_data_action(a),
        ActionGroup::Write => is_write_action(a),
    }
}

/// The names of the entries of `s` in group `g`, in order.
pub open spec fn names_where(s: Seq<ActionSpec>, g: ActionGroup) -> Seq<&'static str>
    decreases s.len(),
{
    if s.len() == 0 {
        Seq::empty()
    } else {
        let r = names_where(s.drop_last(), g);
        if in_group(s.last(), g) {
            r.push(s.last().name)
        } else {
            r
        }
    }
}

/// All action names, in catalogue order.
pub open spec fn spec_action_names() -> Seq<&'static str> {
    spec_actions().map_values(|a: ActionSpec| a.name)
}

/// All valid action names, derived from the catalogue; the JSON Schema enum.
pub fn action_names() -> (r: Vec<&'static str>)
    ensures
        r@ == spec_action_names(),
{
    let all = actions();
    let mut r: Vec<&'static str> = Vec::new();
    let mut i: usize = 0;
    while i < all.len()
        invariant
            all@ == spec_actions(),
            i <= all@.len(),
            r@ == all@.take(i as int).map_values(|a: ActionSpec| a.name),
        decreases all@.len() - i,
    {
        r.push(all[i].name);
        i = i + 1;
        assert(r@ =~= all@.take(i as int).map_values(|a: ActionSpec| a.name));
    }
    assert(all@.take(all@.len() as int) =~= all@);
    r
}

/// The upstream-GraphQL-backed data actions: every read-scoped action except `status`.
pub fn data_action_names() -> (r: Vec<&'static str>)
    ensures
        r@ == names_where(spec_actions(), ActionGroup::Data),
{
    let all = actions();
    let mut r: Vec<&'static str> = Vec::new();
    let mut i: usize = 0;
    while i < all.len()
        invariant
            all@ == spec_actions(),
            i <= all@.len(),
            r@ == names_where(all@.take(i as int), ActionGroup::Data),
        decreases all@.len() - i,
    {
        let a = all[i];
        assert(all@.take(i + 1).drop_last() =~= all@.take(i as int));
        assert(all@.take(i + 1).last() == a);
        if a.scope == Scope::Read && !str_eq(a.name, "status") {
            r.push(a.name);
        }
        i = i + 1;
    }
    assert(all@.take(all@.len() as int) =~= all@);
    r
}

/// The mutating (write-scoped) actions.
pub fn write_action_names() -> (r: Vec<&'static str>)
    ensures
        r@ == names_where(spec_actions(), ActionGroup::Write),
{
    let all = actions();
    let mut r: Vec<&'static str> = Vec::new();
    let mut i: usize = 0;
    while i < all.len()
        invariant
            all@ == spec_actions(),
            i <= all@.len(),
            r@ == names_where(all@.take(i as int), ActionGroup::Write),
        decreases all@.len() - i,
    {
        let a = all[i];
        assert(all@.take(i + 1).drop_last() =~= all@.take(i as int));
        assert(all@.take(i + 1).last() == a);
        if a.scope == Scope::Write {
            r.push(a.name);
        }
        i = i + 1;
    }
    assert(all@.take(all@.len() as int) =~= all@);
    r
}

/// The comma-separated list of every valid action, as quoted in error messages.
pub fn valid_actions_text() -> (r: String)
    ensures
        r@ == join(str_views(spec_action_names()), ", "@),
{
    let names = action_names();
    join_strs(&names, ", ")
}


/// `x` occurs among the names selected from `s` exactly when some entry of `s`
/// in group `g` carries that name.
proof fn lemma_names_where_contains(s: Seq<ActionSpec>, g: ActionGroup, x: Seq<char>)
    ensures
        str_views(names_where(s, g)).contains(x) <==> exists|j: int|
            0 <= j < s.len() && in_group(s[j], g) && #[trigger] s[j].name@ == x,
    decreases s.len(),
{
    if s.len() == 0 {
        assert(str_views(names_where(s, g)) =~= Seq::<Seq<char>>::empty());
    } else {
        let prev = s.drop_last();
        let last = s.len() - 1;
        lemma_names_where_contains(prev, g, x);
        let r = names_where(prev, g);
        let vr = str_views(r);
        let vs = str_views(names_where(s, g));
        if in_group(s.last(), g) {
            assert(vs =~= vr.push(s.last().name@));
        } else {
            assert(vs =~= vr);
        }
        if vs.contains(x) {
            let k = choose|k: int| 0 <= k < vs.len() && vs[k] == x;
            if k < vr.len() {
                assert(vr[k] == x);
                assert(vr.contains(x));
                let j = choose|j: int| 0 <= j < prev.len() && in_group(prev[j], g) && #[trigger] prev[j].name@ == x;
                assert(s[j] == prev[j]);
                assert(0 <= j < s.len() && in_group(s[j], g) && s[j].name@ == x);
            } else {
                assert(s[last].name@ == x);
            }
        }
        if exists|j: int| 0 <= j < s.len() && in_group(s[j], g) && #[trigger] s[j].name@ == x {
            let j = choose|j: int| 0 <= j < s.len() && in_group(s[j], g) && #[trigger] s[j].name@ == x;
            if j < last {
                assert(prev[j] == s[j]);
                assert(prev[j].name@ == x);
                let k = choose|k: int| 0 <= k < vr.len() && vr[k] == x;
                assert(vs[k] == x);
            } else {
                assert(vs[vs.len() - 1] == x);
            }
        }
    }
}

/// `help` is the only action that requires no scope: an action is unscoped
/// exactly when it is named `help`, and `help` is in the catalogue.
pub proof fn lemma_only_help_unscoped()
    ensures
        forall|i: int| 0 <= i < spec_actions().len() ==>
            ((#[trigger] spec_actions()[i]).scope == Scope::Unscoped <==> spec_actions()[i].name@ == "help"@),
        exists|i: int| 0 <= i < spec_actions().len() && (#[trigger] spec_actions()[i]).name@ == "help"@,
{
    lemma_action_names_distinct();
    let s = spec_actions();
    let last = s.len() - 1;
    assert(s[last].name@ == "help"@);
    assert forall|i: int| 0 <= i < s.len() implies
        ((#[trigger] s[i]).scope == Scope::Unscoped <==> s[i].name@ == "help"@) by {
        if i != last {
            assert(s[i].name@ != s[last].name@);
        }
    }
}

/// The action catalogue partitions cleanly: every action is exactly one of a
/// data action, a write action, `status` or `help`; the derived data and write
/// name lists contain exactly the names of the data and write actions.
pub proof fn lemma_action_partition()
    ensures
        forall|i: int| #![trigger spec_actions()[i]] 0 <= i < spec_actions().len() ==> {
            let a = spec_actions()[i];
            &&& str_views(names_where(spec_actions(), ActionGroup::Data)).contains(a.name@) <==> is_data_action(a)
            &&& str_views(names_where(spec_actions(), ActionGroup::Write)).contains(a.name@) <==> is_write_action(a)
            &&& (is_data_action(a) as int) + (is_write_action(a) as int) + ((a.name@ == "status"@) as int)
                + ((a.name@ == "help"@) as int) == 1
        },
{
    lemma_action_names_distinct();
    reveal_strlit("status");
    reveal_strlit("help");
    let s = spec_actions();
    assert forall|i: int| #![trigger s[i]] 0 <= i < s.len() implies {
        let a = s[i];
        &&& str_views(names_where(s, ActionGroup::Data)).contains(a.name@) <==> is_data_action(a)
        &&& str_views(names_where(s, ActionGroup::Write)).contains(a.name@) <==> is_write_action(a)
        &&& (is_data_action(a) as int) + (is_write_action(a) as int) + ((a.name@ == "status"@) as int)
            + ((a.name@ == "help"@) as int) == 1
    } by {
        let a = s[i];
        lemma_names_where_contains(s, ActionGroup::Data, a.name@);
        lemma_names_where_contains(s, ActionGroup::Write, a.name@);
        assert forall|j: int| 0 <= j < s.len() && #[trigger] s[j].name@ == a.name@ implies j == i by {
            if j < i {
                assert(s[j].name@ != s[i].name@);
            } else if i < j {
                assert(s[i].name@ != s[j].name@);
            }
        }
        assert(in_group(a, ActionGroup::Data) == is_data_action(a));
        assert(in_group(a, ActionGroup::Write) == is_write_action(a));
        assert("status"@ != "help"@);
    }
}

/// When every entry is a data or a write action, the two derived lists together
/// are as long as the entries.
proof fn lemma_names_where_lengths(s: Seq<ActionSpec>)
    requires
        forall|i: int| 0 <= i < s.len() ==> is_data_action(#[trigger] s[i]) || is_write_action(s[i]),
    ensures
        names_where(s, ActionGroup::Data).len() + names_where(s, ActionGroup::Write).len() == s.len(),
    decreases s.len(),
{
    if s.len() > 0 {
        let prev = s.drop_last();
        assert forall|i: int| 0 <= i < prev.len() implies is_data_action(#[trigger] prev[i]) || is_write_action(
            prev[i],
        ) by {
            assert(prev[i] == s[i]);
        }
        lemma_names_where_lengths(prev);
        assert(is_data_action(s[s.len() - 1]) || is_write_action(s[s.len() - 1]));
    }
}

/// The data and write action lists share no name, neither holds `status` or
/// `help`, and together with `status` and `help` they account for the whole
/// catalogue.
pub proof fn lemma_action_lists_cover_catalogue(x: Seq<char>)
    ensures
        names_where(spec_actions(), ActionGroup::Data).len() + names_where(spec_actions(), ActionGroup::Write).len()
            + 2 == spec_actions().len(),
        !(str_views(names_where(spec_actions(), ActionGroup::Data)).contains(x) && str_views(
            names_where(spec_actions(), ActionGroup::Write),
        ).contains(x)),
        !str_views(names_where(spec_actions(), ActionGroup::Data)).contains("status"@),
        !str_views(names_where(spec_actions(), ActionGroup::Data)).contains("help"@),
        !str_views(names_where(spec_actions(), ActionGroup::Write)).contains("status"@),
        !str_views(names_where(spec_actions(), ActionGroup::Write)).contains("help"@),
{
    lemma_action_names_distinct();
    lemma_action_partition();
    let s = spec_actions();
    let n = s.len() as int;
    assert(s[n - 2].name@ == "status"@);
    assert(s[n - 1].name@ == "help"@);
    let t = s.take(n - 2);
    assert forall|i: int| 0 <= i < t.len() implies is_data_action(#[trigger] t[i]) || is_write_action(t[i]) by {
        assert(t[i] == s[i]);
        assert(s[i].name@ != s[n - 2].name@);
        assert(s[i].name@ != s[n - 1].name@);
    }
    lemma_names_where_lengths(t);
    let s1 = s.drop_last();
    assert(s1.drop_last() =~= t);
    assert(s.last() == s[n - 1]);
    assert(s1.last() == s[n - 2]);
    assert(s[n - 1].scope == Scope::Unscoped);
    assert(s[n - 2].scope == Scope::Read);
    assert(names_where(s, ActionGroup::Data) == names_where(s1, ActionGroup::Data));
    assert(names_where(s1, ActionGroup::Data) == names_where(t, ActionGroup::Data));
    assert(names_where(s, ActionGroup::Write) == names_where(s1, ActionGroup::Write));
    assert(names_where(s1, ActionGroup::Write) == names_where(t, ActionGroup::Write));
    lemma_names_where_contains(s, ActionGroup::Data, x);
    lemma_names_where_contains(s, ActionGroup::Write, x);
    if str_views(names_where(s, ActionGroup::Data)).contains(x) && str_views(names_where(s, ActionGroup::Write)).contains(
        x,
    ) {
        let j1 = choose|j: int| 0 <= j < s.len() && in_group(s[j], ActionGroup::Data) && #[trigger] s[j].name@ == x;
        let j2 = choose|j: int| 0 <= j < s.len() && in_group(s[j], ActionGroup::Write) && #[trigger] s[j].name@ == x;
        if j1 < j2 {
            assert(s[j1].name@ != s[j2].name@);
        } else if j2 < j1 {
            assert(s[j2].name@ != s[j1].name@);
        }
    }
    lemma_names_where_contains(s, ActionGroup::Data, "status"@);
    lemma_names_where_contains(s, ActionGroup::Data, "help"@);
    lemma_names_where_contains(s, ActionGroup::Write, "status"@);
    lemma_names_where_contains(s, ActionGroup::Write, "help"@);
    assert forall|j: int| 0 <= j < s.len() && #[trigger] s[j].name@ == "help"@ implies j == n - 1 by {
        if j < n - 1 {
            assert(s[j].name@ != s[n - 1].name@);
        }
    }
    assert forall|j: int| 0 <= j < s.len() && #[trigger] s[j].name@ == "status"@ implies j == n - 2 by {
        if j < n - 2 {
            assert(s[j].name@ != s[n - 2].name@);
        } else if j == n - 1 {
            assert(s[n - 2].name@ != s[n - 1].name@);
        }
    }
}

/// The scope name that grants read access.
pub const READ_SCOPE: &'static str = "unraid:read";

/// The scope name that grants administrative (mutating) access; it satisfies
/// [`READ_SCOPE`] too.
pub const ADMIN_SCOPE: &'static str = "unraid:admin";

/// The scope of the first entry of `s` named `a`, if any.
pub open spec fn scope_in(s: Seq<ActionSpec>, a: Seq<char>) -> Option<Scope>
    decreases s.len(),
{
    if s.len() == 0 {
        None
    } else if s[0].name@ == a {
        Some(s[0].scope)
    } else {
        scope_in(s.drop_first(), a)
    }
}

/// The scope the catalogued action `a` requires (`None` for an unknown action).
pub open spec fn spec_required_scope(a: Seq<char>) -> Option<Scope> {
    scope_in(spec_actions(), a)
}

/// The scope action `a` requires, looked up in the catalogue.
pub fn required_scope(a: &str) -> (r: Option<Scope>)
    ensures
        r == spec_required_scope(a@),
{
    let all = actions();
    let mut i: usize = 0;
    assert(all@.skip(0) =~= all@);
    while i < all.len()
        invariant
            all@ == spec_actions(),
            i <= all@.len(),
            scope_in(all@, a@) == scope_in(all@.skip(i as int), a@),
        decreases all@.len() - i,
    {
        assert(all@.skip(i as int)[0] == all@[i as int]);
        if str_eq(all[i].name, a) {
            return Some(all[i].scope);
        }
        assert(all@.skip(i as int).drop_first() =~= all@.skip(i + 1));
        i = i + 1;
    }
    assert(all@.skip(i as int).len() == 0);
    None
}

/// Whether `scopes` holds the scope named `name`.
pub open spec fn grants(scopes: Seq<String>, name: Seq<char>) -> bool {
    exists|i: int| 0 <= i < scopes.len() && (#[trigger] scopes[i])@ == name
}

/// Whether a token granting `scopes` satisfies `required`: an unscoped action
/// needs nothing, `unraid:admin` satisfies `unraid:read`, and only
/// `unraid:admin` satisfies a write.
pub open spec fn spec_scope_satisfied(required: Scope, scopes: Seq<String>) -> bool {
    match required {
        Scope::Unscoped => true,
        Scope::Read => grants(scopes, READ_SCOPE@) || grants(scopes, ADMIN_SCOPE@),
        Scope::Write => grants(scopes, ADMIN_SCOPE@),
    }
}

fn grants_scope(scopes: &Vec<String>, name: &str) -> (r: bool)
    ensures
        r == grants(scopes@, name@),
{
    let mut i: usize = 0;
    while i < scopes.len()
        invariant
            i <= scopes@.len(),
            forall|k: int| 0 <= k < i ==> (#[trigger] scopes@[k])@ != name@,
        decreases scopes@.len() - i,
    {
        if str_eq(scopes[i].as_str(), name) {
            return true;
        }
        i = i + 1;
    }
    false
}

/// Whether a token granting `scopes` may perform an action that requires
/// `required`.
pub fn scope_satisfied(required: Scope, scopes: &Vec<String>) -> (r: bool)
    ensures
        r == spec_scope_satisfied(required, scopes@),
{
    match required {
        Scope::Unscoped => true,
        Scope::Read => grants_scope(scopes, READ_SCOPE) || grants_scope(scopes, ADMIN_SCOPE),
        Scope::Write => grants_scope(scopes, ADMIN_SCOPE),
    }
}

/// In a list of entries with distinct names, looking up an entry's name finds
/// that entry's scope.
proof fn lemma_scope_in_finds(s: Seq<ActionSpec>, i: int)
    requires
        names_distinct(s),
        0 <= i < s.len(),
    ensures
        scope_in(s, s[i].name@) == Some(s[i].scope),
    decreases s.len(),
{
    if i > 0 {
        assert(s[0].name@ != s[i].name@);
        let t = s.drop_first();
        assert(names_distinct(t)) by {
            assert forall|p: int, q: int| 0 <= p < q < t.len() implies t[p].name@ != t[q].name@ by {
                assert(t[p] == s[p + 1] && t[q] == s[q + 1]);
            }
        }
        assert(t[i - 1] == s[i]);
        lemma_scope_in_finds(t, i - 1);
    }
}

/// Scope gating over the catalogue: every catalogued action requires the scope
/// its entry names; a token without `unraid:admin` can never perform a
/// write-scoped (mutating) action, while one with `unraid:read` performs every
/// other action; `unraid:admin` performs every action; and a token with no
/// scope at all performs only `help`.
pub proof fn lemma_scope_gating(i: int, scopes: Seq<String>)
    requires
        0 <= i < spec_actions().len(),
    ensures
        spec_required_scope(spec_actions()[i].name@) == Some(spec_actions()[i].scope),
        !grants(scopes, ADMIN_SCOPE@) ==> (spec_scope_satisfied(spec_actions()[i].scope, scopes) ==> !is_write_action(
            spec_actions()[i],
        )),
        grants(scopes, READ_SCOPE@) ==> (!is_write_action(spec_actions()[i]) ==> spec_scope_satisfied(
            spec_actions()[i].scope,
            scopes,
        )),
        grants(scopes, ADMIN_SCOPE@) ==> spec_scope_satisfied(spec_actions()[i].scope, scopes),
        scopes.len() == 0 ==> (spec_scope_satisfied(spec_actions()[i].scope, scopes) <==> spec_actions()[i].name@
            == "help"@),
{
    lemma_action_names_distinct();
    lemma_scope_in_finds(spec_actions(), i);
    lemma_only_help_unscoped();
    let a = spec_actions()[i];
    assert(a.scope == Scope::Unscoped <==> a.name@ == "help"@);
}

} // verus!
