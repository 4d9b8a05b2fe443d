use unraid_mcp::client::{http_settings, ClientError, HttpSettings, UnraidClient, UnraidConfig, UnraidService};
use unraid_mcp::upstream::{body_outcome, status_failure, transport_failure, typed_outcome, GraphqlBody, UpstreamError};

#[test]
fn transport_failures_are_unreachable() {
    assert_eq!(
        transport_failure(true, false),
        UpstreamError::Unreachable("upstream unreachable — is UNRAID_API_URL reachable?".into())
    );
    assert_eq!(
        transport_failure(false, true),
        UpstreamError::Unreachable("upstream unreachable — is UNRAID_API_URL reachable?".into())
    );
    assert_eq!(
        transport_failure(false, false),
        UpstreamError::Unreachable("upstream request failed before a response was received".into())
    );
}

#[test]
fn credential_rejections_are_auth_errors() {
    for status in [401u16, 403] {
        let e = status_failure(status, "401 Unauthorized").unwrap();
        assert!(matches!(e, UpstreamError::Auth(_)));
        assert_eq!(
            e.message(),
            "upstream rejected the request — check that UNRAID_API_KEY is correct and has not expired"
        );
    }
}

#[test]
fn other_statuses_carry_the_status_line_only() {
    assert_eq!(
        status_failure(500, "500 Internal Server Error"),
        Some(UpstreamError::Other("upstream returned HTTP 500 Internal Server Error".into()))
    );
    assert_eq!(
        status_failure(404, "404 Not Found"),
        Some(UpstreamError::Other("upstream returned HTTP 404 Not Found".into()))
    );
    assert_eq!(status_failure(200, "200 OK"), None);
    assert_eq!(status_failure(204, "204 No Content"), None);
    assert!(status_failure(199, "199").is_some());
    assert!(status_failure(300, "300 Multiple Choices").is_some());
}

#[test]
fn graphql_errors_take_precedence_over_data() {
    let r = body_outcome(Some(GraphqlBody { has_errors: true, data: Some(1) }));
    assert_eq!(r, Err(UpstreamError::Other("upstream GraphQL error — see server logs for details".into())));
    let r = body_outcome(Some(GraphqlBody { has_errors: false, data: Some(7) }));
    assert_eq!(r, Ok(7));
    let r: Result<i32, _> = body_outcome(Some(GraphqlBody { has_errors: false, data: None }));
    assert_eq!(r, Err(UpstreamError::Other("upstream GraphQL response missing 'data' field".into())));
    let r: Result<i32, _> = body_outcome(None);
    assert_eq!(r, Err(UpstreamError::Other("upstream returned an unexpected non-JSON response".into())));
}

#[test]
fn undecodable_payloads_are_schema_mismatches() {
    assert_eq!(typed_outcome(Some("x")), Ok("x"));
    let r: Result<u8, _> = typed_outcome(None);
    assert_eq!(r, Err(UpstreamError::Other("upstream response shape did not match the schema".into())));
}

fn config(url: &str, key: &str) -> UnraidConfig {
    UnraidConfig { api_url: url.into(), api_key: key.into(), skip_tls_verify: false }
}

#[test]
fn client_rejects_missing_url_first() {
    let e = UnraidClient::new(&config("", "")).err().unwrap();
    assert!(matches!(e, ClientError::ApiUrlNotSet));
    assert_eq!(e.message(), "UNRAID_API_URL is not set");
    let e = UnraidClient::new(&config("http://tower/graphql", "")).err().unwrap();
    assert!(matches!(e, ClientError::ApiKeyNotSet));
    assert_eq!(e.message(), "UNRAID_API_KEY is not set");
}

#[test]
fn client_keeps_its_endpoint_and_key() {
    let c = UnraidClient::new(&config("http://tower/graphql", "SECRET-REDACTED")).unwrap();
    let (_, url, key) = c.raw_client();
    assert_eq!(url, "http://tower/graphql");
    assert_eq!(key, "SECRET-REDACTED");
    let mut cfg = config("https://tower/graphql", "k");
    cfg.skip_tls_verify = true;
    let service = UnraidService::new(UnraidClient::new(&cfg).unwrap());
    let (_, url, key) = service.raw_client_parts();
    assert_eq!(url, "https://tower/graphql");
    assert_eq!(key, "k");
    assert_eq!(service.client().raw_client().1, "https://tower/graphql");
}

#[test]
fn built_http_client_is_kept_with_the_endpoint() {
    let cfg = config("http://tower/graphql", "k");
    let settings = http_settings(&cfg);
    let c = UnraidClient::from_http_client(settings, Ok(reqwest::Client::new()), &cfg).unwrap();
    let (_, url, key) = c.raw_client();
    assert_eq!((url, key), ("http://tower/graphql", "k"));
}

#[test]
fn tls_verification_is_skipped_only_when_asked() {
    let mut cfg = config("https://tower/graphql", "k");
    assert_eq!(http_settings(&cfg), HttpSettings { accept_invalid_certs: false, connect_timeout_secs: 5 });
    cfg.skip_tls_verify = true;
    assert_eq!(http_settings(&cfg), HttpSettings { accept_invalid_certs: true, connect_timeout_secs: 5 });
}
