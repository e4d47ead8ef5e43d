use guardian_setup::echo::{echo_url_of, render_echo};
use guardian_setup::error::{ErrorKind, SetupError};
use guardian_setup::operation::{prepare, Endpoint, Operation, PreparedCall};
use guardian_setup::outcome::{conclude, CallEvent, Outcome, RemoteFailure, SetupPhase, SetupStatus};

fn all_operations() -> Vec<Operation> {
    vec![
        Operation::QueryStatus,
        Operation::SetLocalParams {
            guardian_name: "g1".to_string(),
            federation_name: Some("Fed".to_string()),
        },
        Operation::AddPeer { peer_setup_code: "code".to_string() },
        Operation::StartDkg,
        Operation::ResetPeerSetupCodes,
    ]
}

fn prepared_ok(op: Operation, url: &str, password: &str) -> PreparedCall {
    match prepare(op, url, password) {
        Ok(p) => p,
        Err(e) => panic!("unexpected error: {}", e.message()),
    }
}

fn prepared_err(op: Operation, url: &str, password: &str) -> SetupError {
    match prepare(op, url, password) {
        Ok(_) => panic!("expected an error"),
        Err(e) => e,
    }
}

#[test]
fn echo_url_strips_trailing_slashes() {
    assert_eq!(echo_url_of("wss://g1.example//"), "http://g1.example");
    assert_eq!(echo_url_of("g1.example/"), "g1.example");
}

#[test]
fn echo_url_replaces_secure_and_websocket_schemes() {
    assert_eq!(echo_url_of("wss://g1.example"), "http://g1.example");
    assert_eq!(echo_url_of("https://g1.example:443/api/"), "http://g1.example:443/api");
    assert_eq!(echo_url_of("ws://127.0.0.1:8174/"), "http://127.0.0.1:8174");
    assert_eq!(echo_url_of("http://h:1/"), "http://h:1");
}

#[test]
fn echo_url_touches_only_the_leading_scheme() {
    assert_eq!(echo_url_of("http://h/ws://x"), "http://h/ws://x");
    assert_eq!(echo_url_of("ws://a/wss://b/"), "http://a/wss://b");
    assert_eq!(echo_url_of("xws://a"), "xws://a");
    assert_eq!(echo_url_of(""), "");
    assert_eq!(echo_url_of("///"), "");
}

#[test]
fn render_echo_writes_method_as_json_string() {
    let cmd = render_echo("ws://h", "a\"b", "null");
    assert_eq!(
        cmd,
        "curl -X POST \"http://h\" -H \"Content-Type: application/json\" -d \
         '{\"id\":0,\"jsonrpc\":\"2.0\",\"method\":\"a\\\"b\",\"params\":[null]}' -k"
    );
}

#[test]
fn render_echo_builds_curl_command() {
    let cmd = render_echo("ws://h:1/", "start_dkg", "{\"auth\":\"pw\",\"params\":null}");
    assert_eq!(
        cmd,
        "curl -X POST \"http://h:1\" -H \"Content-Type: application/json\" -d \
         '{\"id\":0,\"jsonrpc\":\"2.0\",\"method\":\"start_dkg\",\"params\":[{\"auth\":\"pw\",\"params\":null}]}' -k"
    );
}

#[test]
fn unparsable_endpoint_rejected_for_every_operation() {
    for op in all_operations() {
        let e = prepared_err(op, "not a url", "secret");
        assert_eq!(e.kind, ErrorKind::InvalidEndpoint);
        assert_eq!(e.context, "Failed to parse API URL");
        assert_eq!(e.detail, "not a url");
    }
}

#[test]
fn unparsable_endpoint_comes_before_argument_checks() {
    let op = Operation::SetLocalParams { guardian_name: String::new(), federation_name: None };
    assert_eq!(prepared_err(op, "", "").kind, ErrorKind::InvalidEndpoint);
}

#[test]
fn endpoint_parse_keeps_address() {
    match Endpoint::parse("wss://g1.example") {
        Ok(e) => assert_eq!(e.address, "wss://g1.example"),
        Err(_) => panic!("expected a valid endpoint"),
    }
    assert!(Endpoint::parse("g1.example").is_err());
}

#[test]
fn empty_guardian_name_rejected() {
    let op = Operation::SetLocalParams { guardian_name: String::new(), federation_name: None };
    let e = prepared_err(op, "wss://g1.example", "secret");
    assert_eq!(e.kind, ErrorKind::InvalidArgument);
    assert_eq!(e.message(), "Invalid arguments: guardian name must not be empty");
}

#[test]
fn empty_peer_code_and_password_rejected() {
    let op = Operation::AddPeer { peer_setup_code: String::new() };
    assert_eq!(prepared_err(op, "wss://g1.example", "secret").detail, "peer setup code must not be empty");
    let e = prepared_err(Operation::QueryStatus, "wss://g1.example", "");
    assert_eq!(e.detail, "password must not be empty");
}

#[test]
fn status_request_and_echo() {
    let p = prepared_ok(Operation::QueryStatus, "wss://g1.example", "secret");
    assert_eq!(p.request.method, "setup_status");
    assert_eq!(p.request.auth, "secret");
    assert_eq!(p.request.json, "{\"auth\":\"secret\",\"params\":null}");
    assert_eq!(p.endpoint.address, "wss://g1.example");
    assert_eq!(
        p.echo,
        "curl -X POST \"http://g1.example\" -H \"Content-Type: application/json\" -d \
         '{\"id\":0,\"jsonrpc\":\"2.0\",\"method\":\"setup_status\",\"params\":[{\"auth\":\"secret\",\"params\":null}]}' -k"
    );
}

#[test]
fn set_local_params_request() {
    let op = Operation::SetLocalParams {
        guardian_name: "g1".to_string(),
        federation_name: Some("Fed".to_string()),
    };
    let p = prepared_ok(op.clone(), "ws://g1.example/", "pw");
    assert_eq!(p.request.operation, op);
    assert_eq!(p.request.method, "set_local_params");
    assert_eq!(
        p.request.json,
        "{\"auth\":\"pw\",\"params\":{\"federation_name\":\"Fed\",\"name\":\"g1\"}}"
    );
    let q = prepared_ok(
        Operation::SetLocalParams { guardian_name: "g2".to_string(), federation_name: None },
        "ws://g1.example/",
        "pw",
    );
    assert_eq!(q.request.json, "{\"auth\":\"pw\",\"params\":{\"federation_name\":null,\"name\":\"g2\"}}");
}

#[test]
fn password_is_escaped_in_request() {
    let p = prepared_ok(Operation::StartDkg, "ws://g1.example", "p\"w");
    assert_eq!(p.request.json, "{\"auth\":\"p\\\"w\",\"params\":null}");
}

#[test]
fn add_peer_request_forwards_code_verbatim() {
    let op = Operation::AddPeer { peer_setup_code: "{\"x\":1}".to_string() };
    let p = prepared_ok(op, "ws://g1.example", "pw");
    assert_eq!(p.request.method, "add_peer_setup_code");
    assert_eq!(p.request.json, "{\"auth\":\"pw\",\"params\":\"{\\\"x\\\":1}\"}");
}

#[test]
fn method_names_of_the_remaining_operations() {
    let p = prepared_ok(Operation::StartDkg, "ws://g1.example", "pw");
    assert_eq!(p.request.method, "start_dkg");
    assert_eq!(p.request.json, "{\"auth\":\"pw\",\"params\":null}");
    let p = prepared_ok(Operation::ResetPeerSetupCodes, "ws://g1.example", "pw");
    assert_eq!(p.request.method, "reset_peer_setup_codes");
}

#[test]
fn echo_matches_request_for_every_operation() {
    for op in all_operations() {
        let p = prepared_ok(op, "ws://g1.example/", "secret");
        let expected = render_echo("ws://g1.example/", &p.request.method, &p.request.json);
        assert_eq!(p.echo, expected);
        assert!(p.echo.contains(&p.request.json));
        assert!(p.echo.starts_with("curl -X POST \"http://g1.example\""));
    }
}

#[test]
fn status_awaiting_peer_codes_reported() {
    let status = SetupStatus { phase: SetupPhase::AwaitingPeerCodes, error: None };
    let r = conclude(&Operation::QueryStatus, CallEvent::StatusReported(status));
    match r {
        Ok(Outcome::Status(s)) => {
            assert_eq!(s.phase, SetupPhase::AwaitingPeerCodes);
            assert_eq!(s.error, None);
        }
        _ => panic!("expected a status"),
    }
}

#[test]
fn start_dkg_refused_is_protocol_error() {
    let event = CallEvent::Failed(RemoteFailure::Rejected("not ready".to_string()));
    let e = match conclude(&Operation::StartDkg, event) {
        Err(e) => e,
        Ok(_) => panic!("expected an error"),
    };
    assert_eq!(e.kind, ErrorKind::RemoteProtocolError);
    assert_eq!(e.message(), "Failed to start DKG: not ready");
}

#[test]
fn reset_then_add_peer_again_succeeds() {
    let code = "peer-code".to_string();
    let first = prepared_ok(Operation::AddPeer { peer_setup_code: code.clone() }, "ws://g", "pw");
    let refused = conclude(
        &first.request.operation,
        CallEvent::Failed(RemoteFailure::Rejected("duplicate".to_string())),
    );
    assert!(refused.is_err());
    assert_eq!(conclude(&Operation::ResetPeerSetupCodes, CallEvent::Completed), Ok(Outcome::Completed));
    let retry = prepared_ok(Operation::AddPeer { peer_setup_code: code }, "ws://g", "pw");
    assert_eq!(retry.request, first.request);
    assert_eq!(retry.echo, first.echo);
    let added = conclude(&retry.request.operation, CallEvent::Confirmed("1".to_string()));
    assert_eq!(added, Ok(Outcome::Confirmation("1".to_string())));
}

#[test]
fn session_failure_is_connection_error() {
    let e = conclude(&Operation::QueryStatus, CallEvent::SessionFailed("refused".to_string()));
    let e = e.unwrap_err();
    assert_eq!(e.kind, ErrorKind::ConnectionError);
    assert_eq!(e.message(), "Failed to create API client: refused");
}

#[test]
fn remote_failures_are_classified() {
    let op = Operation::SetLocalParams { guardian_name: "g".to_string(), federation_name: None };
    let e = conclude(&op, CallEvent::Failed(RemoteFailure::Unauthorized("bad".to_string()))).unwrap_err();
    assert_eq!(e.kind, ErrorKind::AuthenticationFailure);
    assert_eq!(e.context, "Failed to set local parameters");
    let op = Operation::AddPeer { peer_setup_code: "c".to_string() };
    let e = conclude(&op, CallEvent::Failed(RemoteFailure::Transport("timeout".to_string()))).unwrap_err();
    assert_eq!(e.kind, ErrorKind::ConnectionError);
    assert_eq!(e.message(), "Failed to add peer connection info: timeout");
}

#[test]
fn replies_that_do_not_fit_are_protocol_errors() {
    let e = conclude(&Operation::StartDkg, CallEvent::Confirmed("x".to_string())).unwrap_err();
    assert_eq!(e.kind, ErrorKind::RemoteProtocolError);
    assert_eq!(e.message(), "Failed to start DKG: unexpected reply");
    let e = conclude(&Operation::QueryStatus, CallEvent::Completed).unwrap_err();
    assert_eq!(e.context, "Failed to get setup status");
    let e = conclude(&Operation::ResetPeerSetupCodes, CallEvent::StatusReported(SetupStatus {
        phase: SetupPhase::Failed,
        error: Some("x".to_string()),
    }))
    .unwrap_err();
    assert_eq!(e.context, "Failed to reset peer setup codes");
}

#[test]
fn confirmations_and_completions_succeed() {
    let op = Operation::SetLocalParams { guardian_name: "g".to_string(), federation_name: None };
    assert_eq!(conclude(&op, CallEvent::Confirmed("peer 0".to_string())), Ok(Outcome::Confirmation("peer 0".to_string())));
    assert_eq!(conclude(&Operation::StartDkg, CallEvent::Completed), Ok(Outcome::Completed));
    let failed = SetupStatus { phase: SetupPhase::Failed, error: Some("dkg aborted".to_string()) };
    assert_eq!(conclude(&Operation::QueryStatus, CallEvent::StatusReported(failed.clone())), Ok(Outcome::Status(failed)));
}
