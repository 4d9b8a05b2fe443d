use unraid_mcp::tools::{classify_service_error, ServiceError, ToolError};
use unraid_mcp::upstream::UpstreamError;

#[test]
fn invalid_params_routes_to_protocol_error() {
    assert!(ToolError::InvalidParams("anything".into()).is_invalid_params());
}

#[test]
fn upstream_variants_route_in_band() {
    assert!(!ToolError::UpstreamUnreachable("x".into()).is_invalid_params());
    assert!(!ToolError::UpstreamAuth("x".into()).is_invalid_params());
    assert!(!ToolError::Upstream("x".into()).is_invalid_params());
    assert!(!ToolError::Internal(ServiceError::Message("boom".into())).is_invalid_params());
}

#[test]
fn classify_maps_unreachable_upstream_error() {
    let err = ServiceError::Upstream(UpstreamError::Unreachable("nope".into()));
    let classified = classify_service_error(err, "array");
    assert!(matches!(classified, ToolError::UpstreamUnreachable(_)));
    assert!(!classified.is_invalid_params());
    assert!(classified.message().contains("array failed"));
}

#[test]
fn classify_maps_auth_upstream_error() {
    let err = ServiceError::Upstream(UpstreamError::Auth("rejected".into()));
    let classified = classify_service_error(err, "disks");
    assert!(matches!(classified, ToolError::UpstreamAuth(_)));
    assert!(!classified.is_invalid_params());
    assert!(classified.message().contains("API key rejected"));
}

#[test]
fn classify_maps_other_upstream_error() {
    let err = ServiceError::Upstream(UpstreamError::Other("HTTP 500".into()));
    let classified = classify_service_error(err, "metrics");
    assert!(matches!(classified, ToolError::Upstream(_)));
    assert!(!classified.is_invalid_params());
}

#[test]
fn classify_maps_unknown_error_to_internal() {
    let err = ServiceError::Message("some non-upstream failure".into());
    let classified = classify_service_error(err, "info");
    assert!(matches!(classified, ToolError::Internal(_)));
    assert!(!classified.is_invalid_params());
}

#[test]
fn classify_finds_upstream_error_through_context_layers() {
    let err = ServiceError::Upstream(UpstreamError::Auth("401".into()))
        .context("while fetching docker containers".to_string());
    let classified = classify_service_error(err, "docker");
    assert!(matches!(classified, ToolError::UpstreamAuth(_)));
}

#[test]
fn classify_messages_are_exact() {
    let c = classify_service_error(ServiceError::Upstream(UpstreamError::Unreachable("nope".into())), "array");
    assert_eq!(
        c.message(),
        "ERROR: array failed — upstream unreachable\nReason: nope\nHint: check that UNRAID_API_URL is reachable and UNRAID_API_KEY is valid.\nUse action=status to check server health."
    );
    let c = classify_service_error(ServiceError::Upstream(UpstreamError::Auth("rejected".into())), "disks");
    assert_eq!(
        c.message(),
        "ERROR: disks failed — API key rejected\nReason: rejected\nHint: check that UNRAID_API_KEY is correct and has not expired."
    );
    let c = classify_service_error(ServiceError::Upstream(UpstreamError::Other("HTTP 500".into())), "metrics");
    assert_eq!(
        c.message(),
        "ERROR: metrics failed\nReason: HTTP 500\nHint: check UNRAID_API_URL and UNRAID_API_KEY. Use action=status to check server health."
    );
}

#[test]
fn internal_errors_display_the_action_context() {
    let c = classify_service_error(ServiceError::Message("serialization broke".into()), "info");
    assert_eq!(c.message(), "info failed");
    match c {
        ToolError::Internal(ServiceError::Context(ctx, inner)) => {
            assert_eq!(ctx, "info failed");
            assert_eq!(inner.message(), "serialization broke");
        }
        other => panic!("unexpected {other:?}"),
    }
}

#[test]
fn context_layers_do_not_change_upstream_messages() {
    let plain = classify_service_error(ServiceError::Upstream(UpstreamError::Other("x".into())), "vms");
    let wrapped = classify_service_error(
        ServiceError::Upstream(UpstreamError::Other("x".into())).context("a".into()).context("b".into()),
        "vms",
    );
    assert_eq!(plain.message(), wrapped.message());
}
