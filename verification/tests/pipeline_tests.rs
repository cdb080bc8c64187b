use opa::config::{Kafka, Opa, Ports, Service, Topic};
use opa::engine::EngineOutcome;
use opa::error::Router;
use opa::loader::load_policy;
use opa::pipeline::{
    classify_identity_status, decide, evaluate, evaluate_decision, evaluate_request,
    resolve_identity, FetchOutcome, IdentityClass,
};
use opa::store::ConfigStore;
use opa::types::opa::OpaInput;
use opa::types::opadata::{Name, Opadata, PrivateProject, Roles, Traits};

const POLICY_RBAC: &str = r#"package app.rbac

default main := false

main if input.role == "admin"
"#;

const POLICY_NO_DEFAULT: &str = r#"package app.rbac

main if false
"#;

const POLICY_NUMBER: &str = r#"package app.rbac

main := 42
"#;

fn admin_input(role: &str) -> OpaInput {
    OpaInput {
        resource: "222".to_owned(),
        method: "get".to_owned(),
        uri: "api/projects".to_owned(),
        role: role.to_owned(),
    }
}

fn identity() -> Opadata {
    Opadata {
        id: "12a9733f".to_owned(),
        traits: Traits {
            email: "test2@wildcard.io".to_owned(),
            name: Name {
                first: "testy".to_owned(),
                last: "testo".to_owned(),
            },
            roles: Roles {
                organizations: vec![],
                private_projects: vec![PrivateProject {
                    key: 222,
                    value: "admin".to_owned(),
                }],
                scopes: vec![],
                affiliate_projects: vec![],
            },
        },
        created_at: "2021-12-02".to_owned(),
        updated_at: "2021-12-03".to_owned(),
    }
}

fn snapshot_with(policy_source: &str, query: &str) -> Opa {
    let policy = load_policy(
        "acl.rego".to_owned(),
        policy_source.to_owned(),
        query.to_owned(),
    )
    .unwrap();
    Opa {
        kafka: Kafka {
            service: "broker:9092".to_owned(),
            topics: vec![Topic {
                name: "error".to_owned(),
                target: "service.errors".to_owned(),
            }],
            producers: None,
        },
        service: Service {
            addr: "127.0.0.1".to_owned(),
            ports: Ports {
                main: "8000".to_owned(),
                health: "8001".to_owned(),
            },
        },
        path: Some("tests/config.toml".to_owned()),
        policy: Some(policy),
    }
}

#[test]
fn admin_is_allowed_guest_is_not() {
    let config = snapshot_with(POLICY_RBAC, "data.app.rbac.main");
    let allowed = evaluate_decision(&config, &admin_input("admin"), &identity()).unwrap();
    assert!(allowed.validate);
    assert_eq!(allowed.to_json(), r#"{"validate":true}"#);
    let denied = evaluate_decision(&config, &admin_input("guest"), &identity()).unwrap();
    assert!(!denied.validate);
    assert_eq!(denied.to_json(), r#"{"validate":false}"#);
    assert_eq!(
        evaluate(&config, &admin_input("admin"), &identity()).unwrap(),
        "true"
    );
    assert_eq!(
        evaluate(&config, &admin_input("guest"), &identity()).unwrap(),
        "false"
    );
}

#[test]
fn evaluate_before_any_load_is_not_initialized() {
    let mut config = snapshot_with(POLICY_RBAC, "data.app.rbac.main");
    config.policy = None;
    let r = evaluate(&config, &admin_input("admin"), &identity());
    assert!(matches!(r, Err(Router::NotInitialized)));
}

#[test]
fn evaluate_is_deterministic_for_fixed_snapshot() {
    let config = snapshot_with(POLICY_RBAC, "data.app.rbac.main");
    let first = evaluate(&config, &admin_input("admin"), &identity()).unwrap();
    let second = evaluate(&config, &admin_input("admin"), &identity()).unwrap();
    assert_eq!(first, second);
    let third = evaluate(&config, &admin_input("guest"), &identity()).unwrap();
    let fourth = evaluate(&config, &admin_input("guest"), &identity()).unwrap();
    assert_eq!(third, fourth);
}

#[test]
fn empty_engine_response_is_an_error_not_a_deny() {
    let config = snapshot_with(POLICY_NO_DEFAULT, "data.app.rbac.main");
    let r = evaluate(&config, &admin_input("admin"), &identity());
    assert!(matches!(r, Err(Router::EmptyResponse)));
}

#[test]
fn non_boolean_result_fails_loudly() {
    let config = snapshot_with(POLICY_NUMBER, "data.app.rbac.main");
    let r = evaluate(&config, &admin_input("admin"), &identity());
    assert!(matches!(r, Err(Router::NonBoolean)));
}

#[test]
fn unknown_rule_is_an_engine_error() {
    let config = snapshot_with(POLICY_RBAC, "data.app.rbac.nothere");
    let r = evaluate(&config, &admin_input("admin"), &identity());
    assert!(matches!(r, Err(Router::Internal(_))));
}

#[test]
fn decide_maps_each_outcome() {
    assert!(decide(EngineOutcome::Decided(true)).unwrap().validate);
    assert!(!decide(EngineOutcome::Decided(false)).unwrap().validate);
    assert!(matches!(
        decide(EngineOutcome::Empty),
        Err(Router::EmptyResponse)
    ));
    assert!(matches!(
        decide(EngineOutcome::NonBoolean),
        Err(Router::NonBoolean)
    ));
    assert!(matches!(
        decide(EngineOutcome::Failed("boom".to_owned())),
        Err(Router::Internal(_))
    ));
}

#[test]
fn identity_statuses_classify() {
    assert_eq!(classify_identity_status(200), IdentityClass::Success);
    assert_eq!(classify_identity_status(204), IdentityClass::Success);
    assert_eq!(classify_identity_status(404), IdentityClass::NotFound);
    assert_eq!(classify_identity_status(500), IdentityClass::Upstream);
    assert_eq!(classify_identity_status(302), IdentityClass::Upstream);
}

#[test]
fn resolve_identity_maps_outcomes() {
    assert!(resolve_identity(FetchOutcome::Success(identity())).is_ok());
    assert!(matches!(
        resolve_identity(FetchOutcome::NotFound),
        Err(Router::Unauthorized)
    ));
    assert!(matches!(
        resolve_identity(FetchOutcome::Upstream(502)),
        Err(Router::Unavailable(502))
    ));
    assert!(matches!(
        resolve_identity(FetchOutcome::NetworkError("refused".to_owned())),
        Err(Router::Internal(_))
    ));
}

#[test]
fn identity_not_found_reports_once_and_fails_unauthorized() {
    let store = ConfigStore::new(snapshot_with(POLICY_RBAC, "data.app.rbac.main"));
    let (r, report) = evaluate_request(&store, &admin_input("admin"), FetchOutcome::NotFound);
    assert!(matches!(r, Err(Router::Unauthorized)));
    let report = report.unwrap();
    assert_eq!(report.topic, "service.errors");
    assert_eq!(
        report.payload,
        r#"{"code":"opa_error","message":"identity not found"}"#
    );
}

#[test]
fn successful_request_reports_nothing() {
    let store = ConfigStore::new(snapshot_with(POLICY_RBAC, "data.app.rbac.main"));
    let (r, report) = evaluate_request(
        &store,
        &admin_input("admin"),
        FetchOutcome::Success(identity()),
    );
    assert_eq!(r.unwrap(), "true");
    assert!(report.is_none());
}

#[test]
fn failure_without_error_topic_reports_nothing() {
    let mut snapshot = snapshot_with(POLICY_RBAC, "data.app.rbac.main");
    snapshot.kafka.topics.clear();
    let store = ConfigStore::new(snapshot);
    let (r, report) = evaluate_request(&store, &admin_input("admin"), FetchOutcome::NotFound);
    assert!(matches!(r, Err(Router::Unauthorized)));
    assert!(report.is_none());
}
