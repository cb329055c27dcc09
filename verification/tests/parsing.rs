use sozuconfw::authority::{backend_targets, parse_authority, parse_port};
use sozuconfw::dispatch::{resolve_state_answer, ResponseEnvelope, ResponseStatus};
use sozuconfw::errors::{OperationError, ParseError, RpcError, TranslateError};

#[test]
fn bare_host_defaults_to_port_80() {
    let (host, port) = parse_authority("10.0.0.1").expect("a bare host parses");
    assert_eq!(host, "10.0.0.1");
    assert_eq!(port, 80);
}

#[test]
fn explicit_port_is_kept() {
    let (host, port) = parse_authority("10.0.0.1:9090").expect("host and port parse");
    assert_eq!(host, "10.0.0.1");
    assert_eq!(port, 9090);
}

#[test]
fn malformed_port_names_the_offending_value() {
    let err = parse_authority("10.0.0.1:notaport").expect_err("a word is not a port");
    match err {
        ParseError::InvalidPort(text) => assert_eq!(text, "notaport"),
        other => panic!("wrong error: {:?}", other),
    }
}

#[test]
fn port_bounds_are_enforced() {
    assert_eq!(parse_port("0").unwrap(), 0);
    assert_eq!(parse_port("65535").unwrap(), 65535);
    assert!(matches!(parse_port("65536"), Err(ParseError::InvalidPort(_))));
    assert!(matches!(parse_port(""), Err(ParseError::InvalidPort(_))));
    assert!(matches!(parse_port("+80"), Err(ParseError::InvalidPort(_))));
}

#[test]
fn empty_port_text_after_colon_fails() {
    assert!(matches!(parse_authority("host:"), Err(ParseError::InvalidPort(_))));
}

#[test]
fn backend_lists_parse_or_abort_on_the_first_bad_entry() {
    let backends = vec!["10.0.0.1".to_string(), "10.0.0.2:9090".to_string()];
    let targets = backend_targets(&backends).expect("all entries well formed");
    assert_eq!(
        targets,
        vec![("10.0.0.1".to_string(), 80u16), ("10.0.0.2".to_string(), 9090u16)]
    );
    let backends = vec!["10.0.0.1".to_string(), "10.0.0.2:x".to_string()];
    assert!(matches!(backend_targets(&backends), Err(ParseError::InvalidPort(_))));
}

#[test]
fn dump_answers_round_trip_through_json() {
    let state = sozu_command_lib::state::ConfigState::new();
    let body = serde_json::to_string(&state).expect("states serialize");
    let id = "ID-abc123".to_string();
    let answer = ResponseEnvelope {
        id: id.clone(),
        status: ResponseStatus::Completed,
        message: format!("{{\"id\":\"ID-abc123\",\"state\":{}}}", body),
    };
    let parsed = resolve_state_answer(&id, Some(&answer)).expect("a well-formed answer parses");
    assert_eq!(parsed, state);
}

#[test]
fn dump_answers_are_correlated_and_checked() {
    let id = "ID-abc123".to_string();
    let wrong_id = ResponseEnvelope {
        id: "ID-zzz999".to_string(),
        status: ResponseStatus::Completed,
        message: "{}".to_string(),
    };
    assert!(matches!(
        resolve_state_answer(&id, Some(&wrong_id)),
        Err(RpcError::MalformedMessage(_))
    ));
    let garbled = ResponseEnvelope {
        id: id.clone(),
        status: ResponseStatus::Completed,
        message: "not json".to_string(),
    };
    match resolve_state_answer(&id, Some(&garbled)) {
        Err(RpcError::MalformedMessage(text)) => assert_eq!(text, "not json"),
        other => panic!("an undecodable payload must fail: {:?}", other),
    }
    assert!(matches!(resolve_state_answer(&id, None), Err(RpcError::NoResponse(_))));
}

#[test]
fn operation_and_parse_errors_name_their_subject() {
    let e = OperationError::InvalidPath("a\u{fffd}b".to_string());
    assert_eq!(e.message(), "path provided was not valid: a\u{fffd}b");
    let e = OperationError::FileLoad("certs/site.pem".to_string());
    assert_eq!(e.message(), "could not load file: certs/site.pem");
    let e = ParseError::MissingItem("Certificate".to_string());
    assert_eq!(e.message(), "missing required item: Certificate");
    let e = ParseError::InvalidPort("notaport".to_string());
    assert_eq!(e.message(), "invalid port: notaport");
    let e = TranslateError::Fingerprint;
    assert_eq!(e.message(), "could not calculate fingerprint");
    let e = TranslateError::MalformedDocument("expected a table".to_string());
    assert_eq!(e.message(), "could not parse the document: expected a table");
    let e = TranslateError::Parse(ParseError::MissingItem("Key".to_string()));
    assert_eq!(e.message(), "missing required item: Key");
}
