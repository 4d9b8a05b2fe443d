use unraid_mcp::args::{ArgNumber, ArgValue, ToolArgs};
use unraid_mcp::dispatch::{plan_action, plan_tool, ActionPlan, ListField, PageRequest};
use unraid_mcp::service::ServiceCall;
use unraid_mcp::tools::ToolError;

fn s(v: &str) -> ArgValue {
    ArgValue::Str(v.to_string())
}

fn num(v: i64) -> ArgValue {
    ArgValue::Number(ArgNumber { as_i64: Some(v), as_u64: if v >= 0 { Some(v as u64) } else { None } })
}

fn args(pairs: Vec<(&str, ArgValue)>) -> ToolArgs {
    ToolArgs { entries: pairs.into_iter().map(|(k, v)| (k.to_string(), v)).collect() }
}

fn invalid_message(r: Result<ActionPlan, ToolError>) -> String {
    match r {
        Err(ToolError::InvalidParams(m)) => m,
        other => panic!("expected invalid_params, got {other:?}"),
    }
}

#[test]
fn simple_actions_plan_their_call() {
    let r = plan_tool("unraid", &args(vec![("action", s("array"))]));
    assert_eq!(r.unwrap(), ActionPlan::Call { call: ServiceCall::Array, page: None });
    let r = plan_tool("unraid", &args(vec![("action", s("parity_check_pause"))]));
    assert_eq!(r.unwrap(), ActionPlan::Call { call: ServiceCall::ParityCheckPause, page: None });
}

#[test]
fn unknown_tool_is_invalid_params() {
    let m = invalid_message(plan_tool("other", &args(vec![("action", s("array"))])));
    assert_eq!(m, "unknown tool: other\nHint: the only supported tool is \"unraid\".\nUse action=help for documentation.");
}

#[test]
fn missing_action_lists_valid_actions() {
    let m = invalid_message(plan_tool("unraid", &args(vec![])));
    assert!(m.starts_with("\"action\" is required.\nValid actions: array, disks, "));
    assert!(m.ends_with("status, help\nExample: {\"action\": \"docker\"}\nSee: action=help for full documentation."));
}

#[test]
fn unknown_action_lists_valid_actions() {
    let m = invalid_message(plan_action("nope", &args(vec![])));
    assert!(m.starts_with("unknown unraid action: \"nope\"\nValid actions: array, disks, "));
    assert!(m.ends_with(", help\nSee: action=help for full documentation."));
}

#[test]
fn paged_actions_default_and_cap_the_limit() {
    let r = plan_action("docker", &args(vec![])).unwrap();
    assert_eq!(
        r,
        ActionPlan::Call {
            call: ServiceCall::Docker,
            page: Some(PageRequest { list: ListField::DockerContainers, limit: 50, offset: 0, filter: None })
        }
    );
    let r = plan_action("docker", &args(vec![("limit", num(500)), ("offset", num(7)), ("state", s("running"))])).unwrap();
    assert_eq!(
        r,
        ActionPlan::Call {
            call: ServiceCall::Docker,
            page: Some(PageRequest {
                list: ListField::DockerContainers,
                limit: 200,
                offset: 7,
                filter: Some("running".into())
            })
        }
    );
    let r = plan_action("vms", &args(vec![("limit", num(3)), ("name", s("ignored"))])).unwrap();
    assert_eq!(
        r,
        ActionPlan::Call {
            call: ServiceCall::Vms,
            page: Some(PageRequest { list: ListField::VmDomains, limit: 3, offset: 0, filter: None })
        }
    );
    let r = plan_action("shares", &args(vec![("name", s("media"))])).unwrap();
    assert_eq!(
        r,
        ActionPlan::Call {
            call: ServiceCall::Shares,
            page: Some(PageRequest { list: ListField::Shares, limit: 50, offset: 0, filter: Some("media".into()) })
        }
    );
}

#[test]
fn malformed_paging_arguments_are_invalid_params() {
    let m = invalid_message(plan_action("docker", &args(vec![("limit", s("ten"))])));
    assert_eq!(m, "\"limit\" must be a non-negative integer");
    let m = invalid_message(plan_action("plugins", &args(vec![("offset", num(-1))])));
    assert_eq!(m, "\"offset\" must be a non-negative integer");
}

#[test]
fn id_actions_require_id() {
    let m = invalid_message(plan_action("vm_start", &args(vec![])));
    assert_eq!(m, "\"id\" is required for action=vm_start.");
    let r = plan_action("vm_start", &args(vec![("id", s("v1"))])).unwrap();
    assert_eq!(r, ActionPlan::Call { call: ServiceCall::VmStart("v1".into()), page: None });
    let r = plan_action("api_key", &args(vec![("id", s("k"))])).unwrap();
    assert_eq!(r, ActionPlan::Call { call: ServiceCall::ApiKey("k".into()), page: None });
}

#[test]
fn docker_logs_and_log_file_arguments() {
    let m = invalid_message(plan_action("docker_logs", &args(vec![])));
    assert!(m.starts_with("\"id\" is required for action=docker_logs.\nHint: call action=docker first"));
    let r = plan_action("docker_logs", &args(vec![("id", s("c")), ("tail", num(20))])).unwrap();
    assert_eq!(r, ActionPlan::Call { call: ServiceCall::DockerLogs { id: "c".into(), tail: Some(20) }, page: None });
    let m = invalid_message(plan_action("docker_logs", &args(vec![("id", s("c")), ("tail", s("x"))])));
    assert_eq!(m, "\"tail\" must be an integer");
    let m = invalid_message(plan_action("log_file", &args(vec![])));
    assert!(m.starts_with("\"path\" is required for action=log_file.\nHint: call action=log_files first"));
    let r = plan_action("log_file", &args(vec![("path", s("/p")), ("start_line", num(5)), ("lines", ArgValue::Null)])).unwrap();
    assert_eq!(
        r,
        ActionPlan::Call { call: ServiceCall::LogFile { path: "/p".into(), lines: None, start_line: Some(5) }, page: None }
    );
}

#[test]
fn list_arguments_need_a_string_item() {
    let m = invalid_message(plan_action("get_permissions_for_roles", &args(vec![("roles", ArgValue::Array(vec![num(1)]))])));
    assert_eq!(m, "\"roles\" (a non-empty array of role names) is required for action=get_permissions_for_roles.");
    let r = plan_action(
        "get_permissions_for_roles",
        &args(vec![("roles", ArgValue::Array(vec![s("ADMIN"), num(3), s("GUEST")]))]),
    )
    .unwrap();
    assert_eq!(
        r,
        ActionPlan::Call { call: ServiceCall::GetPermissionsForRoles(vec!["ADMIN".into(), "GUEST".into()]), page: None }
    );
    let m = invalid_message(plan_action("docker_update_containers", &args(vec![("ids", s("a"))])));
    assert_eq!(m, "\"ids\" (non-empty array) is required for action=docker_update_containers.");
}

#[test]
fn create_notification_requires_fields_in_order() {
    let m = invalid_message(plan_action("create_notification", &args(vec![("subject", s("s"))])));
    assert_eq!(m, "\"title\" is required for action=create_notification.");
    let m = invalid_message(plan_action("create_notification", &args(vec![("title", s("t")), ("subject", s("s"))])));
    assert_eq!(m, "\"description\" is required for action=create_notification.");
    let r = plan_action(
        "create_notification",
        &args(vec![("title", s("t")), ("subject", s("s")), ("description", s("d")), ("importance", s("WARNING"))]),
    )
    .unwrap();
    assert_eq!(
        r,
        ActionPlan::Call {
            call: ServiceCall::CreateNotification {
                title: "t".into(),
                subject: "s".into(),
                description: "d".into(),
                importance: "WARNING".into(),
                link: None
            },
            page: None
        }
    );
}

#[test]
fn optional_scalar_arguments() {
    let r = plan_action("docker_remove_container", &args(vec![("id", s("c")), ("with_image", ArgValue::Bool(true))])).unwrap();
    assert_eq!(r, ActionPlan::Call { call: ServiceCall::DockerRemoveContainer { id: "c".into(), with_image: Some(true) }, page: None });
    let r = plan_action("array_add_disk_to_array", &args(vec![("id", s("d")), ("slot", num(4294967298))])).unwrap();
    assert_eq!(r, ActionPlan::Call { call: ServiceCall::ArrayAddDiskToArray { id: "d".into(), slot: Some(2) }, page: None });
    let r = plan_action("parity_check_start", &args(vec![])).unwrap();
    assert_eq!(r, ActionPlan::Call { call: ServiceCall::ParityCheckStart(false), page: None });
    let r = plan_action("parity_check_start", &args(vec![("correct", ArgValue::Bool(true))])).unwrap();
    assert_eq!(r, ActionPlan::Call { call: ServiceCall::ParityCheckStart(true), page: None });
    let m = invalid_message(plan_action("array_set_state", &args(vec![])));
    assert_eq!(m, "\"desired_state\" (START/STOP) is required for action=array_set_state.");
}

#[test]
fn local_actions() {
    assert_eq!(plan_action("status", &args(vec![])).unwrap(), ActionPlan::Status);
    assert_eq!(plan_action("help", &args(vec![])).unwrap(), ActionPlan::Help);
}

#[test]
fn every_catalogued_action_is_dispatched_to_its_namesake() {
    let full = args(vec![
        ("id", s("x")),
        ("path", s("/p")),
        ("token", s("t")),
        ("roles", ArgValue::Array(vec![s("ADMIN")])),
        ("ids", ArgValue::Array(vec![s("a")])),
        ("title", s("t")),
        ("subject", s("s")),
        ("description", s("d")),
        ("importance", s("INFO")),
        ("desired_state", s("START")),
    ]);
    for a in unraid_mcp::actions::actions() {
        match plan_action(a.name, &full).unwrap() {
            ActionPlan::Call { call, .. } => assert_eq!(call.name(), a.name),
            ActionPlan::Status => assert_eq!(a.name, "status"),
            ActionPlan::Help => assert_eq!(a.name, "help"),
        }
    }
}

#[test]
fn unknown_enumerated_values_are_invalid_params() {
    let m = invalid_message(plan_tool(
        "unraid",
        &args(vec![
            ("action", s("create_notification")),
            ("title", s("t")),
            ("subject", s("s")),
            ("description", s("d")),
            ("importance", s("urgent")),
        ]),
    ));
    assert_eq!(
        m,
        "invalid importance (expected ALERT/INFO/WARNING): unknown variant `urgent`, expected one of `ALERT`, `INFO`, `WARNING`"
    );
    let m = invalid_message(plan_action("array_set_state", &args(vec![("desired_state", s("stop"))])));
    assert_eq!(m, "invalid desired_state (START/STOP): unknown variant `stop`, expected `START` or `STOP`");
    let m = invalid_message(plan_action(
        "get_permissions_for_roles",
        &args(vec![("roles", ArgValue::Array(vec![s("ADMIN"), s("root"), s("nobody")]))]),
    ));
    assert_eq!(
        m,
        "invalid role value: unknown variant `root`, expected one of `ADMIN`, `CONNECT`, `GUEST`, `VIEWER`"
    );
}
