use unraid_mcp::requests::{
    request_for, GqlVar, TypedOperation, UpstreamRequest, DOCKER_LOGS_QUERY, LOG_FILE_QUERY, ARRAY_QUERY,
};
use unraid_mcp::schema::{ArrayStateInputState, NotificationImportance, PrefixedID, Role};
use unraid_mcp::service::ServiceCall;
use unraid_mcp::upstream::UpstreamError;

fn other_message(r: Result<UpstreamRequest, UpstreamError>) -> String {
    match r {
        Err(UpstreamError::Other(m)) => m,
        other => panic!("expected an upstream error, got {other:?}"),
    }
}

#[test]
fn docker_logs_defaults_tail_to_one_hundred() {
    match request_for(ServiceCall::DockerLogs { id: "abc".into(), tail: None }).unwrap() {
        UpstreamRequest::Query(q) => {
            assert_eq!(q.query, DOCKER_LOGS_QUERY);
            assert_eq!(
                q.variables.unwrap(),
                vec![("id", GqlVar::Str("abc".into())), ("tail", GqlVar::Int(100))]
            );
        }
        other => panic!("unexpected {other:?}"),
    }
    match request_for(ServiceCall::DockerLogs { id: "abc".into(), tail: Some(7) }).unwrap() {
        UpstreamRequest::Query(q) => {
            assert_eq!(q.variables.unwrap()[1], ("tail", GqlVar::Int(7)));
        }
        other => panic!("unexpected {other:?}"),
    }
}

#[test]
fn log_file_sends_missing_numbers_as_null() {
    let r = request_for(ServiceCall::LogFile { path: "/var/log/syslog".into(), lines: Some(20), start_line: None });
    match r.unwrap() {
        UpstreamRequest::Query(q) => {
            assert_eq!(q.query, LOG_FILE_QUERY);
            assert_eq!(
                q.variables.unwrap(),
                vec![
                    ("path", GqlVar::Str("/var/log/syslog".into())),
                    ("lines", GqlVar::Int(20)),
                    ("startLine", GqlVar::Null),
                ]
            );
        }
        other => panic!("unexpected {other:?}"),
    }
}

#[test]
fn argument_free_queries_have_null_variables() {
    match request_for(ServiceCall::Array).unwrap() {
        UpstreamRequest::Query(q) => {
            assert_eq!(q.query, ARRAY_QUERY);
            assert!(q.variables.is_none());
        }
        other => panic!("unexpected {other:?}"),
    }
    assert!(matches!(request_for(ServiceCall::Online).unwrap(), UpstreamRequest::Typed(TypedOperation::Online)));
}

#[test]
fn ids_travel_as_prefixed_ids() {
    match request_for(ServiceCall::VmStart("vm:1".into())).unwrap() {
        UpstreamRequest::Typed(TypedOperation::VmStart(v)) => assert_eq!(v.id, PrefixedID("vm:1".into())),
        other => panic!("unexpected {other:?}"),
    }
    match request_for(ServiceCall::DockerUpdateContainers(vec!["a".into(), "b".into()])).unwrap() {
        UpstreamRequest::Typed(TypedOperation::DockerUpdateContainers(v)) => {
            assert_eq!(v.ids, vec![PrefixedID("a".into()), PrefixedID("b".into())]);
        }
        other => panic!("unexpected {other:?}"),
    }
}

#[test]
fn array_state_is_decoded_by_wire_name() {
    match request_for(ServiceCall::ArraySetState("STOP".into())).unwrap() {
        UpstreamRequest::Typed(TypedOperation::ArraySetState(v)) => {
            assert_eq!(v.input.desired_state, ArrayStateInputState::Stop)
        }
        other => panic!("unexpected {other:?}"),
    }
    assert_eq!(
        other_message(request_for(ServiceCall::ArraySetState("stop".into()))),
        "invalid desired_state (START/STOP): unknown variant `stop`, expected `START` or `STOP`"
    );
}

#[test]
fn notification_importance_is_decoded_by_wire_name() {
    let call = |imp: &str| ServiceCall::CreateNotification {
        title: "t".into(),
        subject: "s".into(),
        description: "d".into(),
        importance: imp.into(),
        link: None,
    };
    match request_for(call("WARNING")).unwrap() {
        UpstreamRequest::Typed(TypedOperation::CreateNotification(v)) => {
            assert_eq!(v.input.importance, NotificationImportance::Warning);
            assert_eq!(v.input.title, "t");
            assert_eq!(v.input.link, None);
        }
        other => panic!("unexpected {other:?}"),
    }
    assert_eq!(
        other_message(request_for(call("LOUD"))),
        "invalid importance (expected ALERT/INFO/WARNING): unknown variant `LOUD`, expected one of `ALERT`, `INFO`, `WARNING`"
    );
}

#[test]
fn roles_stop_at_the_first_unknown_name() {
    match request_for(ServiceCall::GetPermissionsForRoles(vec!["ADMIN".into(), "VIEWER".into()])).unwrap() {
        UpstreamRequest::Typed(TypedOperation::PermissionsForRoles(v)) => {
            assert_eq!(v.roles, vec![Role::Admin, Role::Viewer])
        }
        other => panic!("unexpected {other:?}"),
    }
    assert_eq!(
        other_message(request_for(ServiceCall::GetPermissionsForRoles(vec![
            "GUEST".into(),
            "root".into(),
            "nobody".into()
        ]))),
        "invalid role value: unknown variant `root`, expected one of `ADMIN`, `CONNECT`, `GUEST`, `VIEWER`"
    );
}

#[test]
fn arguments_never_reach_the_query_document() {
    let query_of = |c: ServiceCall| match request_for(c).unwrap() {
        UpstreamRequest::Query(q) => q.query,
        other => panic!("unexpected {other:?}"),
    };
    let plain = query_of(ServiceCall::LogFile { path: "/var/log/syslog".into(), lines: None, start_line: None });
    let hostile = query_of(ServiceCall::LogFile {
        path: "\") { content } array { state } #".into(),
        lines: Some(1),
        start_line: Some(2),
    });
    assert_eq!(plain, hostile);
    assert!(!hostile.contains("array"));
}
