use unraid_mcp::actions::action_names;
use unraid_mcp::args::{ArgNumber, ArgValue, ToolArgs};
use unraid_mcp::dispatch::plan_tool;
use unraid_mcp::tool_schema::{tool_definitions, PropertyType};

#[test]
fn one_tool_named_unraid_requiring_action() {
    let defs = tool_definitions();
    assert_eq!(defs.len(), 1);
    let d = &defs[0];
    assert_eq!(d.name, "unraid");
    assert!(d.description.starts_with("Query and manage the Unraid server via its GraphQL API."));
    assert_eq!(d.required, vec!["action"]);
    assert_eq!(d.properties.len(), 22);
}

#[test]
fn enumerated_properties_list_the_accepted_values() {
    let d = &tool_definitions()[0];
    let find = |n: &str| d.properties.iter().find(|p| p.name == n).unwrap();
    assert_eq!(find("action").allowed.as_ref().unwrap(), &action_names());
    assert_eq!(find("importance").allowed.as_ref().unwrap(), &vec!["ALERT", "INFO", "WARNING"]);
    assert_eq!(find("desired_state").allowed.as_ref().unwrap(), &vec!["START", "STOP"]);
    assert!(find("id").allowed.is_none());
    assert_eq!(find("roles").kind, PropertyType::StringArray);
    assert_eq!(find("limit").kind, PropertyType::Integer);
    assert_eq!(find("correct").kind, PropertyType::Boolean);
    assert_eq!(find("path").description, "Log file path — required for action=log_file.");
}

fn args(pairs: Vec<(&str, ArgValue)>) -> ToolArgs {
    ToolArgs { entries: pairs.into_iter().map(|(k, v)| (k.to_string(), v)).collect() }
}

#[test]
fn undeclared_arguments_do_not_change_the_plan() {
    let plain = plan_tool(
        "unraid",
        &args(vec![("action", ArgValue::Str("docker".into())), ("state", ArgValue::Str("run".into()))]),
    )
    .unwrap();
    let extra = plan_tool(
        "unraid",
        &args(vec![
            ("action", ArgValue::Str("docker".into())),
            ("verbose", ArgValue::Bool(true)),
            ("state", ArgValue::Str("run".into())),
            ("page_size", ArgValue::Number(ArgNumber { as_i64: Some(3), as_u64: Some(3) })),
        ]),
    )
    .unwrap();
    assert_eq!(plain, extra);
}
