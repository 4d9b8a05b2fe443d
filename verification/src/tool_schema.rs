//! The definition of the `unraid` MCP tool that clients list: its name, its
//! description, and the JSON Schema of its arguments.
//!
//! The schema declares every argument the dispatcher reads, and restricts the
//! enumerated ones to exactly the values the rest of the library accepts: the
//! catalogued actions, and the wire names of notification importance and array
//! state.

use vstd::prelude::*;
use crate::actions::{action_names, spec_action_names, spec_actions};
use crate::args::{ToolArgs, spec_get};
use crate::dispatch::{lemma_dispatch_covers_catalogue, spec_dispatches, spec_plan_tool};
use crate::requests::{
    array_state_input_names, notification_importance_names, spec_array_state_input, spec_notification_importance,
};
use crate::text::str_views;

verus! {

/// The JSON type of a tool argument.
#[derive(Clone, Copy, Debug, PartialEq, Eq, Structural)]
pub enum PropertyType {
    /// `"type": "string"`
    String,
    /// `"type": "integer"`
    Integer,
    /// `"type": "boolean"`
    Boolean,
    /// `"type": "array"` of strings
    StringArray,
}

/// One argument of the tool's input schema.
#[derive(Debug)]
pub struct ToolProperty {
    pub name: &'static str,
    pub kind: PropertyType,
    pub description: &'static str,
    /// The values the argument is restricted to (a JSON Schema `enum`), if any.
    pub allowed: Option<Vec<&'static str>>,
}

/// A tool as advertised to MCP clients.
#[derive(Debug)]
pub struct ToolDefinition {
    pub name: &'static str,
    pub description: &'static str,
    /// The properties of the input schema (an object), in order.
    pub properties: Vec<ToolProperty>,
    /// The names of the required properties.
    pub required: Vec<&'static str>,
}

/// What a property states: name, type, description and allowed values.
pub open spec fn property_view(p: ToolProperty) -> (Seq<char>, PropertyType, Seq<char>, Option<Seq<Seq<char>>>) {
    (p.name@, p.kind, p.description@, match p.allowed {
        Some(v) => Some(str_views(v@)),
        None => None,
    })
}

/// The properties of the `unraid` tool's input schema.
pub open spec fn spec_properties() -> Seq<(Seq<char>, PropertyType, Seq<char>, Option<Seq<Seq<char>>>)> {
    seq![
        ("action"@, PropertyType::String, "Operation to perform."@, Some(str_views(spec_action_names()))),
        ("id"@, PropertyType::String, "Container ID (docker_logs) or UPS ID (ups_device)."@, None),
        ("path"@, PropertyType::String, "Log file path — required for action=log_file."@, None),
        ("lines"@, PropertyType::Integer, "Number of lines to read (log_file)."@, None),
        ("start_line"@, PropertyType::Integer, "Starting line number, 1-indexed (log_file)."@, None),
        ("tail"@, PropertyType::Integer, "Number of log lines to return (docker_logs, default 100)."@, None),
        ("limit"@, PropertyType::Integer, "Max items to return for list actions (default 50, max 200)."@, None),
        ("offset"@, PropertyType::Integer, "Zero-based offset for pagination of list actions (default 0)."@, None),
        ("state"@, PropertyType::String, "Filter docker containers by state substring (e.g. \"running\", \"stopped\")."@, None),
        ("name"@, PropertyType::String, "Filter shares or plugins by name substring (case-insensitive)."@, None),
        ("token"@, PropertyType::String, "Session token — required for action=validate_oidc_session."@, None),
        ("roles"@, PropertyType::StringArray, "Role names — required for action=get_permissions_for_roles."@, None),
        ("title"@, PropertyType::String, "Notification title (create_notification)."@, None),
        ("subject"@, PropertyType::String, "Notification subject (create_notification)."@, None),
        ("description"@, PropertyType::String, "Notification body (create_notification)."@, None),
        ("importance"@, PropertyType::String, "Notification importance (create_notification)."@, Some(notification_importance_names())),
        ("link"@, PropertyType::String, "Optional notification link (create_notification)."@, None),
        ("desired_state"@, PropertyType::String, "Array target state (array_set_state)."@, Some(array_state_input_names())),
        ("slot"@, PropertyType::Integer, "Array disk slot (array_add/remove_disk_from_array)."@, None),
        ("correct"@, PropertyType::Boolean, "Whether the parity check should write corrections (parity_check_start)."@, None),
        ("with_image"@, PropertyType::Boolean, "Also remove the image (docker_remove_container)."@, None),
        ("ids"@, PropertyType::StringArray, "Container IDs (docker_update_containers)."@, None),
    ]
}

/// The names of the properties the tool declares.
pub open spec fn spec_property_names() -> Seq<Seq<char>> {
    spec_properties().map_values(|p: (Seq<char>, PropertyType, Seq<char>, Option<Seq<Seq<char>>>)| p.0)
}

/// The description of the `unraid` tool.
pub open spec fn spec_tool_description() -> Seq<char> {
    "Query and manage the Unraid server via its GraphQL API. Read actions need scope unraid:read; mutating actions need unraid:admin. Use action=help for documentation."@
}

/// `d` is the `unraid` tool's definition.
pub open spec fn is_unraid_tool(d: ToolDefinition) -> bool {
    &&& d.name@ == "unraid"@
    &&& d.description@ == spec_tool_description()
    &&& d.properties@.map_values(|p: ToolProperty| property_view(p)) == spec_properties()
    &&& str_views(d.required@) == seq!["action"@]
}

fn property(name: &'static str, kind: PropertyType, description: &'static str) -> (r: ToolProperty)
    ensures
        r.name == name,
        r.kind == kind,
        r.description == description,
        r.allowed is None,
{
    ToolProperty { name, kind, description, allowed: None }
}

/// The tools this server offers: the single `unraid` tool.
pub fn tool_definitions() -> (r: Vec<ToolDefinition>)
    ensures
        r@.len() == 1,
        is_unraid_tool(r@[0]),
{
    let actions = action_names();
    let importance: Vec<&'static str> = vec!["ALERT", "INFO", "WARNING"];
    let states: Vec<&'static str> = vec!["START", "STOP"];
    proof {
        assert(str_views(importance@) =~= notification_importance_names());
        assert(str_views(states@) =~= array_state_input_names());
    }
    let mut props: Vec<ToolProperty> = Vec::new();
    props.push(ToolProperty { name: "action", kind: PropertyType::String, description: "Operation to perform.", allowed: Some(actions) });
    props.push(property("id", PropertyType::String, "Container ID (docker_logs) or UPS ID (ups_device)."));
    props.push(property("path", PropertyType::String, "Log file path — required for action=log_file."));
    props.push(property("lines", PropertyType::Integer, "Number of lines to read (log_file)."));
    props.push(property("start_line", PropertyType::Integer, "Starting line number, 1-indexed (log_file)."));
    props.push(property("tail", PropertyType::Integer, "Number of log lines to return (docker_logs, default 100)."));
    props.push(property("limit", PropertyType::Integer, "Max items to return for list actions (default 50, max 200)."));
    props.push(property("offset", PropertyType::Integer, "Zero-based offset for pagination of list actions (default 0)."));
    props.push(property("state", PropertyType::String, "Filter docker containers by state substring (e.g. \"running\", \"stopped\")."));
    props.push(property("name", PropertyType::String, "Filter shares or plugins by name substring (case-insensitive)."));
    props.push(property("token", PropertyType::String, "Session token — required for action=validate_oidc_session."));
    props.push(property("roles", PropertyType::StringArray, "Role names — required for action=get_permissions_for_roles."));
    props.push(property("title", PropertyType::String, "Notification title (create_notification)."));
    props.push(property("subject", PropertyType::String, "Notification subject (create_notification)."));
    props.push(property("description", PropertyType::String, "Notification body (create_notification)."));
    props.push(ToolProperty { name: "importance", kind: PropertyType::String, description: "Notification importance (create_notification).", allowed: Some(importance) });
    props.push(property("link", PropertyType::String, "Optional notification link (create_notification)."));
    props.push(ToolProperty { name: "desired_state", kind: PropertyType::String, description: "Array target state (array_set_state).", allowed: Some(states) });
    props.push(property("slot", PropertyType::Integer, "Array disk slot (array_add/remove_disk_from_array)."));
    props.push(property("correct", PropertyType::Boolean, "Whether the parity check should write corrections (parity_check_start)."));
    props.push(property("with_image", PropertyType::Boolean, "Also remove the image (docker_remove_container)."));
    props.push(property("ids", PropertyType::StringArray, "Container IDs (docker_update_containers)."));
    let required: Vec<&'static str> = vec!["action"];
    proof {
        assert(str_views(required@) =~= seq!["action"@]);
        assert(props@.map_values(|p: ToolProperty| property_view(p)) =~= spec_properties());
    }
    let tool = ToolDefinition {
        name: "unraid",
        description: "Query and manage the Unraid server via its GraphQL API. Read actions need scope unraid:read; mutating actions need unraid:admin. Use action=help for documentation.",
        properties: props,
        required,
    };
    vec![tool]
}

/// `a` and `b` give every property the tool declares the same value.
pub open spec fn agree_on_declared(a: ToolArgs, b: ToolArgs) -> bool {
    forall|n: Seq<char>|
        spec_property_names().contains(n) ==> #[trigger] spec_get(a.entries@, n) == spec_get(b.entries@, n)
}

/// A tool call depends on its arguments only through the properties the tool's
/// input schema declares: an argument the schema does not declare never changes
/// what the call does, and every argument the dispatcher reads is declared.
pub proof fn lemma_only_declared_arguments_matter(name: Seq<char>, a: ToolArgs, b: ToolArgs)
    requires
        agree_on_declared(a, b),
    ensures
        spec_plan_tool(name, a) == spec_plan_tool(name, b),
{
    let names = spec_property_names();
    assert(names[0] == "action"@);
    assert(names[1] == "id"@);
    assert(names[2] == "path"@);
    assert(names[3] == "lines"@);
    assert(names[4] == "start_line"@);
    assert(names[5] == "tail"@);
    assert(names[6] == "limit"@);
    assert(names[7] == "offset"@);
    assert(names[8] == "state"@);
    assert(names[9] == "name"@);
    assert(names[10] == "token"@);
    assert(names[11] == "roles"@);
    assert(names[12] == "title"@);
    assert(names[13] == "subject"@);
    assert(names[14] == "description"@);
    assert(names[15] == "importance"@);
    assert(names[16] == "link"@);
    assert(names[17] == "desired_state"@);
    assert(names[18] == "slot"@);
    assert(names[19] == "correct"@);
    assert(names[20] == "with_image"@);
    assert(names[21] == "ids"@);
}

/// The schema's enumerations list exactly the values the library accepts: the
/// `action` enum holds exactly the actions the dispatcher serves, and the
/// `importance` and `desired_state` enums exactly the wire names that building
/// the upstream request decodes.
pub proof fn lemma_schema_enums_match_accepted_values(a: Seq<char>, v: Seq<char>)
    ensures
        spec_properties()[0].0 == "action"@,
        spec_properties()[0].3 == Some(str_views(spec_action_names())),
        str_views(spec_action_names()).contains(a) <==> spec_dispatches(a),
        spec_properties()[15].0 == "importance"@,
        spec_properties()[15].3 == Some(notification_importance_names()),
        notification_importance_names().contains(v) <==> spec_notification_importance(v) is Some,
        spec_properties()[17].0 == "desired_state"@,
        spec_properties()[17].3 == Some(array_state_input_names()),
        array_state_input_names().contains(v) <==> spec_array_state_input(v) is Some,
{
    lemma_dispatch_covers_catalogue(a);
    let names = str_views(spec_action_names());
    let acts = spec_actions();
    assert(names.len() == acts.len());
    assert forall|i: int| 0 <= i < acts.len() implies #[trigger] names[i] == acts[i].name@ by {}
    if names.contains(a) {
        let i = choose|i: int| 0 <= i < names.len() && names[i] == a;
        assert(acts[i].name@ == a);
    }
    if spec_dispatches(a) {
        let i = choose|i: int| 0 <= i < acts.len() && (#[trigger] acts[i]).name@ == a;
        assert(names[i] == a);
    }
    let imp = notification_importance_names();
    if spec_notification_importance(v) is Some {
        if v == "ALERT"@ {
            assert(imp[0] == v);
        } else if v == "INFO"@ {
            assert(imp[1] == v);
        } else {
            assert(imp[2] == v);
        }
    }
    let st = array_state_input_names();
    if spec_array_state_input(v) is Some {
        if v == "START"@ {
            assert(st[0] == v);
        } else {
            assert(st[1] == v);
        }
    }
}

} // verus!
