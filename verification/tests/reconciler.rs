use sozuconfw::config::{AppRoutes, FileStore, Frontends, HostPort, ListenContext, RoutingConfig};
use sozuconfw::dispatch::{ActionLabel, ItemLabel};
use sozuconfw::errors::RpcError;
use sozuconfw::reconcile::{classify_event, EventAction, Reconciler, WatchEvent};
use sozuconfw::translate::translate;

fn ctx() -> ListenContext {
    ListenContext {
        http: HostPort { a: 0, b: 0, c: 0, d: 0, port: 80 },
        https: HostPort { a: 0, b: 0, c: 0, d: 0, port: 443 },
    }
}

fn state_for(app_id: &str, hostname: &str) -> sozu_command_lib::state::ConfigState {
    let rc = RoutingConfig {
        hostname: hostname.to_string(),
        path_begin: None,
        certificate: None,
        key: None,
        certificate_chain: None,
        frontends: Frontends { http: true, https: false },
        backends: Vec::new(),
        sticky_session: None,
        https_redirect: None,
        proxy_protocol: None,
    };
    let doc = vec![AppRoutes { app_id: app_id.to_string(), routes: vec![rc] }];
    translate(&doc, &ctx(), &FileStore::new()).expect("translation should succeed")
}

#[test]
fn write_create_and_chmod_trigger_reconciliation() {
    for event in [
        WatchEvent::Write("apps.toml".to_string()),
        WatchEvent::Create("apps.toml".to_string()),
        WatchEvent::Chmod("apps.toml".to_string()),
    ] {
        match classify_event(event) {
            EventAction::Reconcile(path) => assert_eq!(path, "apps.toml"),
            other => panic!("expected a reconcile action: {:?}", other),
        }
    }
}

#[test]
fn rename_moves_the_watch_target_only() {
    let mirror = state_for("a", "a.example");
    let mut rec = Reconciler::new(mirror.clone(), "old.toml".to_string());
    match classify_event(WatchEvent::Rename("old.toml".to_string(), "new.toml".to_string())) {
        EventAction::Rewatch(old_path, new_path) => {
            assert_eq!(old_path, "old.toml");
            assert_eq!(new_path, "new.toml");
            rec.rename_target(new_path);
        },
        other => panic!("expected a rewatch action: {:?}", other),
    }
    assert_eq!(rec.watched, "new.toml");
    assert_eq!(rec.mirror, mirror);
}

#[test]
fn other_events_are_ignored() {
    assert!(matches!(classify_event(WatchEvent::Other), EventAction::Ignore));
}

#[test]
fn planning_against_an_equal_state_is_a_noop() {
    let mirror = state_for("a", "a.example");
    let rec = Reconciler::new(mirror.clone(), "apps.toml".to_string());
    assert!(rec.plan(&mirror).is_empty());
    let desired = state_for("b", "b.example");
    assert!(!rec.plan(&desired).is_empty());
}

#[test]
fn all_success_commits_the_desired_state() {
    let mirror = state_for("a", "a.example");
    let desired = state_for("b", "b.example");
    let mut rec = Reconciler::new(mirror, "apps.toml".to_string());
    let outcomes: Vec<Result<Option<(ItemLabel, ActionLabel)>, RpcError>> = vec![
        Ok(Some((ItemLabel::Application, ActionLabel::Added))),
        Ok(Some((ItemLabel::HttpFront, ActionLabel::Added))),
    ];
    rec.complete_cycle(desired.clone(), &outcomes, None);
    assert_eq!(rec.mirror, desired);
}

#[test]
fn any_failure_resyncs_to_the_fresh_fetch() {
    let mirror = state_for("a", "a.example");
    let desired = state_for("b", "b.example");
    let fetched = state_for("c", "c.example");
    assert!(!mirror.diff(&desired).is_empty());
    let mut rec = Reconciler::new(mirror.clone(), "apps.toml".to_string());
    let outcomes: Vec<Result<Option<(ItemLabel, ActionLabel)>, RpcError>> = vec![
        Ok(Some((ItemLabel::Application, ActionLabel::Added))),
        Err(RpcError::ExecutionFailure("proxy refused".to_string())),
    ];
    rec.complete_cycle(desired.clone(), &outcomes, Some(fetched.clone()));
    assert_eq!(rec.mirror, fetched);
    assert_ne!(rec.mirror, desired);
    assert_ne!(rec.mirror, mirror);
    assert_eq!(rec.watched, "apps.toml");
}
