use unraid_mcp::actions::{
    action_names, actions, data_action_names, valid_actions_text, write_action_names, Scope,
};

/// `help` is the only unscoped action; query actions are read-scoped and
/// mutating actions are write-scoped.
#[test]
fn only_help_is_unscoped() {
    for spec in actions() {
        match spec.name {
            "help" => assert!(spec.scope == Scope::Unscoped, "help must be unscoped"),
            _ => assert!(
                spec.scope == Scope::Read || spec.scope == Scope::Write,
                "{} must be read- or write-scoped",
                spec.name
            ),
        }
    }
}

/// The derived schema-enum name list agrees with the canonical specs, in order.
#[test]
fn schema_enum_matches_canonical() {
    let derived: Vec<&str> = actions().iter().map(|a| a.name).collect();
    assert_eq!(action_names(), derived);
}

/// `help` is present in the canonical list.
#[test]
fn help_is_present() {
    assert!(actions().iter().any(|a| a.name == "help"));
}

#[test]
fn catalogue_has_89_actions_starting_with_array() {
    let all = actions();
    assert_eq!(all.len(), 89);
    assert_eq!(all[0].name, "array");
    assert_eq!(all[87].name, "status");
    assert_eq!(all[88].name, "help");
}

#[test]
fn data_actions_exclude_status_and_writes() {
    let data = data_action_names();
    assert_eq!(data.len(), 58);
    assert_eq!(data[0], "array");
    assert_eq!(data[57], "get_permissions_for_roles");
    assert!(!data.contains(&"status"));
    assert!(!data.contains(&"help"));
    assert!(!data.contains(&"vm_start"));
}

#[test]
fn write_actions_are_the_mutations() {
    let writes = write_action_names();
    assert_eq!(writes.len(), 29);
    assert_eq!(writes[0], "recalculate_overview");
    assert_eq!(writes[28], "parity_check_cancel");
    assert!(writes.contains(&"vm_start"));
    assert!(!writes.contains(&"array"));
}

#[test]
fn data_write_status_help_partition_the_catalogue() {
    let data = data_action_names();
    let writes = write_action_names();
    for a in actions() {
        let n = a.name;
        let count = data.contains(&n) as u32 + writes.contains(&n) as u32 + (n == "status") as u32 + (n == "help") as u32;
        assert_eq!(count, 1, "{n}");
    }
}

#[test]
fn valid_actions_text_joins_with_commas() {
    let text = valid_actions_text();
    assert!(text.starts_with("array, disks, docker, docker_logs, "));
    assert!(text.ends_with(", parity_check_cancel, status, help"));
    assert_eq!(text.split(", ").count(), 89);
}

#[test]
fn cli_only_commands_are_not_actions() {
    let names = unraid_mcp::actions::action_names();
    assert!(!names.contains(&"doctor"));
    assert!(!names.contains(&"setup"));
    assert!(names.contains(&"status"));
}

#[test]
fn action_names_are_unique() {
    let names = action_names();
    let mut sorted = names.clone();
    sorted.sort();
    sorted.dedup();
    assert_eq!(sorted.len(), names.len());
}
