use opa::config::{ConfigError, Kafka, Opa, Policy, Ports, Service, Topic};
use opa::error::Router;
use opa::loader::load_policy;
use opa::pipeline::evaluate;
use opa::store::ConfigStore;
use opa::types::opa::OpaInput;
use opa::types::opadata::{Name, Opadata, Roles, Traits};

const POLICY_RBAC: &str = r#"package app.rbac

default main := false

main if input.role == "admin"
"#;

fn base_snapshot(policy: Option<Policy>) -> Opa {
    Opa {
        kafka: Kafka {
            service: "broker:9092".to_owned(),
            topics: vec![Topic {
                name: "error".to_owned(),
                target: "service.errors".to_owned(),
            }],
            producers: None,
        },
        service: Service {
            addr: "127.0.0.1".to_owned(),
            ports: Ports {
                main: "8000".to_owned(),
                health: "8001".to_owned(),
            },
        },
        path: Some("tests/config.toml".to_owned()),
        policy,
    }
}

fn bare_identity() -> Opadata {
    Opadata {
        id: "subject".to_owned(),
        traits: Traits {
            email: "".to_owned(),
            name: Name {
                first: "".to_owned(),
                last: "".to_owned(),
            },
            roles: Roles {
                organizations: vec![],
                private_projects: vec![],
                scopes: vec![],
                affiliate_projects: vec![],
            },
        },
        created_at: "".to_owned(),
        updated_at: "".to_owned(),
    }
}

fn request(role: &str) -> OpaInput {
    OpaInput {
        resource: "1".to_owned(),
        method: "get".to_owned(),
        uri: "/".to_owned(),
        role: role.to_owned(),
    }
}

#[test]
fn readiness_follows_policy_presence() {
    let store = ConfigStore::new(base_snapshot(None));
    assert!(!store.is_ready());
    let policy = load_policy(
        "acl.rego".to_owned(),
        POLICY_RBAC.to_owned(),
        "data.app.rbac.main".to_owned(),
    )
    .unwrap();
    let store = ConfigStore::new(base_snapshot(Some(policy)));
    assert!(store.is_ready());
}

#[test]
fn swap_publishes_the_new_snapshot() {
    let mut store = ConfigStore::new(base_snapshot(None));
    let policy = load_policy(
        "acl.rego".to_owned(),
        POLICY_RBAC.to_owned(),
        "data.app.rbac.main".to_owned(),
    )
    .unwrap();
    store.swap(base_snapshot(Some(policy)));
    assert!(store.is_ready());
    assert_eq!(store.read().policy.as_ref().unwrap().query, "data.app.rbac.main");
}

#[test]
fn invalid_policy_on_disk_keeps_prior_snapshot_serving() {
    let good = load_policy(
        "acl.rego".to_owned(),
        POLICY_RBAC.to_owned(),
        "data.app.rbac.main".to_owned(),
    )
    .unwrap();
    let mut store = ConfigStore::new(base_snapshot(Some(good)));

    // The policy file is replaced on disk with something unparseable; the
    // reload's build step fails before anything reaches the store.
    let bad = load_policy(
        "acl.rego".to_owned(),
        "package app.rbac\n\nmain {{{".to_owned(),
        "data.app.rbac.main".to_owned(),
    );
    assert!(matches!(bad, Err(ConfigError::PolicyInvalid(_))));

    let built: Result<Opa, ConfigError> = bad.map(|p| base_snapshot(Some(p)));
    assert!(!store.apply_reload(built));

    // The previous snapshot still serves, with the still-valid policy.
    let allowed = evaluate(store.read(), &request("admin"), &bare_identity()).unwrap();
    assert_eq!(allowed, "true");
}

#[test]
fn successful_reload_swaps_in_the_rebuilt_snapshot() {
    let good = load_policy(
        "acl.rego".to_owned(),
        POLICY_RBAC.to_owned(),
        "data.app.rbac.main".to_owned(),
    )
    .unwrap();
    let mut store = ConfigStore::new(base_snapshot(None));
    assert!(store.apply_reload(Ok(base_snapshot(Some(good)))));
    assert!(store.is_ready());
}

#[test]
fn reader_keeps_its_snapshot_for_the_whole_request() {
    let good = load_policy(
        "acl.rego".to_owned(),
        POLICY_RBAC.to_owned(),
        "data.app.rbac.main".to_owned(),
    )
    .unwrap();
    let store = ConfigStore::new(base_snapshot(Some(good)));
    // A request reads once and works against that one snapshot value for
    // its whole duration.
    let snapshot = store.read().clone();
    let first = evaluate(&snapshot, &request("admin"), &bare_identity()).unwrap();
    let second = evaluate(&snapshot, &request("admin"), &bare_identity()).unwrap();
    assert_eq!(first, second);
}
