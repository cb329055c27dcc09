use sozuconfw::config::{AppRoutes, FileStore, Frontends, HostPort, ListenContext, RoutingConfig};
use sozuconfw::errors::{OperationError, ParseError, TranslateError};
use sozuconfw::laws::diff_after_retranslation;
use sozuconfw::translate::translate;
use sozu_command_lib::certificate::calculate_fingerprint;
use sozu_command_lib::messages::CertFingerprint;

fn ctx() -> ListenContext {
    ListenContext {
        http: HostPort { a: 0, b: 0, c: 0, d: 0, port: 80 },
        https: HostPort { a: 0, b: 0, c: 0, d: 0, port: 443 },
    }
}

fn route(hostname: &str) -> RoutingConfig {
    RoutingConfig {
        hostname: hostname.to_string(),
        path_begin: None,
        certificate: None,
        key: None,
        certificate_chain: None,
        frontends: Frontends { http: true, https: false },
        backends: Vec::new(),
        sticky_session: None,
        https_redirect: None,
        proxy_protocol: None,
    }
}

fn cert_pem() -> String {
    "-----BEGIN CERTIFICATE-----\nAQIDBAU=\n-----END CERTIFICATE-----\n".to_string()
}

fn chain_pem() -> String {
    let one = "-----BEGIN CERTIFICATE-----\nBgcICQo=\n-----END CERTIFICATE-----";
    format!("{}\n{}\n", one, one)
}

fn https_doc() -> (Vec<AppRoutes>, FileStore) {
    let mut rc = route("secure.example.com");
    rc.frontends = Frontends { http: true, https: true };
    rc.certificate = Some("certs/site.pem".to_string());
    rc.key = Some("certs/site.key".to_string());
    rc.certificate_chain = Some("certs/chain.pem".to_string());
    let doc = vec![AppRoutes { app_id: "secure".to_string(), routes: vec![rc] }];
    let mut files = FileStore::new();
    files.add("certs/site.pem".to_string(), cert_pem());
    files.add("certs/site.key".to_string(), "a key".to_string());
    files.add("certs/chain.pem".to_string(), chain_pem());
    (doc, files)
}

#[test]
fn translates_http_route_into_state() {
    let doc = vec![AppRoutes { app_id: "hello".to_string(), routes: vec![route("example.com")] }];
    let state = translate(&doc, &ctx(), &FileStore::new()).expect("translation should succeed");
    assert_eq!(state.applications.len(), 1);
    let app = state.applications.get("hello").expect("application registered");
    assert!(!app.sticky_session);
    assert!(!app.https_redirect);
    let fronts = state.http_fronts.get("hello").expect("front registered");
    assert_eq!(fronts.len(), 1);
    assert_eq!(fronts[0].hostname, "example.com");
    assert_eq!(fronts[0].path_begin, "/");
    assert!(state.https_fronts.is_empty());
    assert!(state.certificates.is_empty());
}

#[test]
fn default_substitution_for_omitted_fields() {
    let mut rc = route("example.com");
    rc.path_begin = None;
    rc.sticky_session = None;
    rc.https_redirect = None;
    let doc = vec![AppRoutes { app_id: "app".to_string(), routes: vec![rc] }];
    let state = translate(&doc, &ctx(), &FileStore::new()).expect("translation should succeed");
    let app = state.applications.get("app").unwrap();
    assert!(!app.sticky_session);
    assert!(!app.https_redirect);
    assert_eq!(state.http_fronts.get("app").unwrap()[0].path_begin, "/");
}

#[test]
fn explicit_fields_are_kept() {
    let mut rc = route("example.com");
    rc.path_begin = Some("/api".to_string());
    rc.sticky_session = Some(true);
    rc.https_redirect = Some(true);
    let doc = vec![AppRoutes { app_id: "app".to_string(), routes: vec![rc] }];
    let state = translate(&doc, &ctx(), &FileStore::new()).expect("translation should succeed");
    let app = state.applications.get("app").unwrap();
    assert!(app.sticky_session);
    assert!(app.https_redirect);
    assert_eq!(state.http_fronts.get("app").unwrap()[0].path_begin, "/api");
}

#[test]
fn https_route_adds_certificate_then_front() {
    let (doc, files) = https_doc();
    let state = translate(&doc, &ctx(), &files).expect("translation should succeed");
    let certs = state.certificates.values().next().expect("certificate table filled");
    assert_eq!(certs.len(), 1);
    let expected = CertFingerprint(
        calculate_fingerprint(cert_pem().as_bytes()).expect("fingerprint of the PEM"),
    );
    let (stored, names) = certs.get(&expected).expect("certificate keyed by its fingerprint");
    assert_eq!(stored.certificate, cert_pem());
    assert_eq!(stored.key, "a key");
    assert_eq!(stored.certificate_chain.len(), 2);
    assert_eq!(names, &vec!["secure.example.com".to_string()]);
    let fronts = state.https_fronts.get("secure").expect("HTTPS front registered");
    assert_eq!(fronts.len(), 1);
    assert_eq!(fronts[0].hostname, "secure.example.com");
    assert_eq!(fronts[0].path_begin, "/");
    assert_eq!(fronts[0].fingerprint, expected);
}

#[test]
fn missing_certificate_fails_without_state() {
    let (mut doc, files) = https_doc();
    doc[0].routes[0].certificate = None;
    let err = translate(&doc, &ctx(), &files).expect_err("translation must fail");
    match err {
        TranslateError::Parse(ParseError::MissingItem(item)) => assert_eq!(item, "Certificate"),
        other => panic!("wrong error: {:?}", other),
    }
}

#[test]
fn missing_key_fails_naming_key() {
    let (mut doc, files) = https_doc();
    doc[0].routes[0].key = None;
    let err = translate(&doc, &ctx(), &files).expect_err("translation must fail");
    match err {
        TranslateError::Parse(ParseError::MissingItem(item)) => assert_eq!(item, "Key"),
        other => panic!("wrong error: {:?}", other),
    }
}

#[test]
fn unreadable_certificate_file_fails_naming_path() {
    let (doc, _) = https_doc();
    let mut files = FileStore::new();
    files.add("certs/site.key".to_string(), "a key".to_string());
    let err = translate(&doc, &ctx(), &files).expect_err("translation must fail");
    match err {
        TranslateError::Operation(OperationError::FileLoad(path)) => {
            assert_eq!(path, "certs/site.pem")
        },
        other => panic!("wrong error: {:?}", other),
    }
}

#[test]
fn garbage_certificate_fails_fingerprinting() {
    let (doc, _) = https_doc();
    let mut files = FileStore::new();
    files.add("certs/site.pem".to_string(), "not pem at all".to_string());
    files.add("certs/site.key".to_string(), "a key".to_string());
    files.add("certs/chain.pem".to_string(), chain_pem());
    let err = translate(&doc, &ctx(), &files).expect_err("translation must fail");
    assert!(matches!(err, TranslateError::Fingerprint));
}

#[test]
fn unreadable_chain_file_fails_naming_path() {
    let (doc, _) = https_doc();
    let mut files = FileStore::new();
    files.add("certs/site.pem".to_string(), cert_pem());
    files.add("certs/site.key".to_string(), "a key".to_string());
    let err = translate(&doc, &ctx(), &files).expect_err("translation must fail");
    match err {
        TranslateError::Operation(OperationError::FileLoad(path)) => {
            assert_eq!(path, "certs/chain.pem")
        },
        other => panic!("wrong error: {:?}", other),
    }
}

#[test]
fn omitted_chain_field_means_empty_chain() {
    let (mut doc, _) = https_doc();
    doc[0].routes[0].certificate_chain = None;
    let mut files = FileStore::new();
    files.add("certs/site.pem".to_string(), cert_pem());
    files.add("certs/site.key".to_string(), "a key".to_string());
    let state = translate(&doc, &ctx(), &files).expect("translation should succeed");
    let certs = state.certificates.values().next().unwrap();
    let (stored, _) = certs.values().next().unwrap();
    assert!(stored.certificate_chain.is_empty());
}

#[test]
fn translating_twice_diffs_to_nothing() {
    let (doc, files) = https_doc();
    let first = translate(&doc, &ctx(), &files).expect("translation should succeed");
    let second = translate(&doc, &ctx(), &files).expect("translation should succeed");
    assert!(first.diff(&second).is_empty());
    assert!(second.diff(&first).is_empty());
}

#[test]
fn retranslation_law_reports_empty_diff() {
    let (doc, files) = https_doc();
    let orders = diff_after_retranslation(&doc, &ctx(), &files)
        .expect("translation should succeed");
    assert!(orders.is_empty());
}

#[test]
fn different_documents_diff_to_something() {
    let doc_a = vec![AppRoutes { app_id: "a".to_string(), routes: vec![route("a.example")] }];
    let doc_b = vec![AppRoutes { app_id: "b".to_string(), routes: vec![route("b.example")] }];
    let state_a = translate(&doc_a, &ctx(), &FileStore::new()).unwrap();
    let state_b = translate(&doc_b, &ctx(), &FileStore::new()).unwrap();
    assert!(!state_a.diff(&state_b).is_empty());
}

#[test]
fn an_application_may_appear_in_several_entries() {
    let doc = vec![
        AppRoutes { app_id: "app".to_string(), routes: vec![route("one.example")] },
        AppRoutes {
            app_id: "app".to_string(),
            routes: vec![route("two.example"), route("three.example")],
        },
    ];
    let state = translate(&doc, &ctx(), &FileStore::new()).expect("translation should succeed");
    assert_eq!(state.applications.len(), 1);
    let fronts = state.http_fronts.get("app").expect("fronts registered");
    assert_eq!(fronts.len(), 3);
}

#[test]
fn an_empty_document_yields_an_empty_state() {
    let doc: Vec<AppRoutes> = Vec::new();
    let state = translate(&doc, &ctx(), &FileStore::new()).expect("translation should succeed");
    assert_eq!(state, sozu_command_lib::state::ConfigState::new());
}

#[test]
fn file_store_keeps_latest_entry() {
    let mut files = FileStore::new();
    files.add("p".to_string(), "one".to_string());
    files.add("p".to_string(), "two".to_string());
    assert_eq!(files.get(&"p".to_string()), Some(&"two".to_string()));
    assert_eq!(files.get(&"q".to_string()), None);
}
