use mongo_gateway::config::{Config, EnvVars};
use mongo_gateway::handlers::{collection_from_state, prepare_insert_many};
use mongo_gateway::models::NamespacePayload;
use mongo_gateway::state::{AppState, NamespaceKey, NamespaceResolver};
use mongodb::bson::Document;
use mongodb::Client;

fn config(default_database: Option<&str>, default_collection: Option<&str>) -> Config {
    Config::from_vars(EnvVars {
        mongodb_uri: Some("mongodb://localhost:27017".to_string()),
        default_database: default_database.map(str::to_string),
        default_collection: default_collection.map(str::to_string),
        pool_min_size: None,
        pool_max_size: None,
        connect_timeout_ms: None,
        server_selection_timeout_ms: None,
        log_level: None,
        bind_address: Some("127.0.0.1:3000".to_string()),
    })
    .expect("config")
}

fn with_state(config: &Config, f: impl FnOnce(&AppState)) {
    let runtime = tokio::runtime::Runtime::new().expect("runtime");
    let _guard = runtime.enter();
    let client = runtime
        .block_on(Client::with_uri_str("mongodb://localhost:27017"))
        .expect("client");
    let state = AppState::new(client, config);
    f(&state);
}

fn namespace(database: &str, collection: &str) -> NamespacePayload {
    NamespacePayload {
        database: database.into(),
        collection: collection.into(),
    }
}

#[test]
fn collection_requires_namespace_values() {
    with_state(&config(None, None), |state| {
        let payload = namespace("", "users");
        let err = state
            .collection(&payload)
            .expect_err("expected validation error");
        assert_eq!(err.status(), 400);
    });
}

#[test]
fn collection_uses_defaults_for_missing_namespace_fields() {
    with_state(&config(Some("app"), Some("users")), |state| {
        let payload = namespace("   ", "   ");
        let collection = state.collection(&payload).expect("collection handle");
        let namespace = collection.namespace();
        assert_eq!(namespace.db, "app");
        assert_eq!(namespace.coll, "users");
    });
}

#[test]
fn collection_caches_handles() {
    with_state(&config(None, None), |state| {
        let payload1 = namespace("test_db", "test_coll");
        let payload2 = namespace("test_db", "test_coll");

        let collection1 = state.collection(&payload1).expect("collection handle");
        let collection2 = state.collection(&payload2).expect("collection handle");

        assert_eq!(collection1.name(), collection2.name());
        assert_eq!(collection1.namespace().db, collection2.namespace().db);
    });
}

#[test]
fn collection_handles_different_namespaces() {
    with_state(&config(None, None), |state| {
        let payload1 = namespace("db1", "coll1");
        let payload2 = namespace("db2", "coll2");

        let collection1 = state.collection(&payload1).expect("collection handle");
        let collection2 = state.collection(&payload2).expect("collection handle");

        assert_ne!(collection1.name(), collection2.name());
        assert_ne!(collection1.namespace().db, collection2.namespace().db);
    });
}

#[test]
fn collection_trims_whitespace() {
    with_state(&config(None, None), |state| {
        let payload = namespace("  test_db  ", "  test_coll  ");
        let collection = state.collection(&payload).expect("collection handle");
        assert_eq!(collection.name(), "test_coll");
        assert_eq!(collection.namespace().db, "test_db");
    });
}

#[test]
fn collection_from_state_requires_database() {
    with_state(&config(None, None), |state| {
        let payload = namespace("   ", "users");
        let err = collection_from_state(state, &payload)
            .expect_err("expected missing database error");
        assert_eq!(err.status(), 400);
    });
}

#[test]
fn collection_from_state_returns_collection_handle() {
    with_state(&config(None, None), |state| {
        let payload = namespace("app", "users");
        let collection = collection_from_state(state, &payload).expect("collection handle");
        assert_eq!(collection.name(), "users");
    });
}

#[test]
fn collection_from_state_fills_blank_names_from_defaults() {
    with_state(&config(Some("app"), Some("users")), |state| {
        let handle = collection_from_state(state, &namespace("", " orders ")).unwrap();
        assert_eq!(handle.namespace().db, "app");
        assert_eq!(handle.namespace().coll, "orders");
        let handle = collection_from_state(state, &namespace("  ", "")).unwrap();
        assert_eq!(handle.namespace().db, "app");
        assert_eq!(handle.namespace().coll, "users");
    });
    with_state(&config(Some("app"), None), |state| {
        let err = collection_from_state(state, &namespace("", "")).unwrap_err();
        assert_eq!(err.body.details, "collection must be provided");
    });
}

#[test]
fn insert_many_uses_defaults_after_the_list_check() {
    with_state(&config(Some("app"), Some("users")), |state| {
        let documents = vec![Document::new()];
        let handle = prepare_insert_many(state, &namespace("", ""), &documents).unwrap();
        assert_eq!(handle.namespace().db, "app");
        assert_eq!(handle.namespace().coll, "users");
        let err = prepare_insert_many(state, &namespace("", ""), &Vec::new()).unwrap_err();
        assert_eq!(err.body.details, "documents must not be empty");
    });
}

#[test]
fn whitespace_variants_share_one_target() {
    with_state(&config(None, None), |state| {
        let a = state.collection(&namespace("app", "users")).unwrap();
        let b = state.collection(&namespace("\tapp ", " users\n")).unwrap();
        let c = state.collection(&namespace("app", "users")).unwrap();
        assert_eq!(a.namespace(), b.namespace());
        assert_eq!(b.namespace(), c.namespace());
        let key_a = state.resolve_namespace(&namespace("app", "users")).unwrap();
        let key_b = state.resolve_namespace(&namespace("  app", "users  ")).unwrap();
        assert_eq!(key_a, key_b);
    });
}

#[test]
fn insert_many_rejects_empty_list_before_the_namespace() {
    with_state(&config(None, None), |state| {
        let err = prepare_insert_many(state, &namespace("", ""), &Vec::new()).unwrap_err();
        assert_eq!(err.status(), 400);
        assert_eq!(err.body.details, "documents must not be empty");
        let err = prepare_insert_many(state, &namespace("app", "users"), &Vec::new()).unwrap_err();
        assert_eq!(err.body.details, "documents must not be empty");
        let documents = vec![Document::new()];
        let err = prepare_insert_many(state, &namespace("", "users"), &documents).unwrap_err();
        assert_eq!(err.body.details, "database must be provided");
        let handle = prepare_insert_many(state, &namespace("app", "users"), &documents).unwrap();
        assert_eq!(handle.name(), "users");
    });
}

#[test]
fn resolution_uses_defaults_only_for_blank_names() {
    let resolver = NamespaceResolver {
        default_database: Some("app".to_string()),
        default_collection: None,
    };
    let key = resolver.resolve(&namespace(" ", "users")).unwrap();
    assert_eq!(key.database(), "app");
    assert_eq!(key.collection(), "users");
    let key = resolver.resolve(&namespace(" other ", " things ")).unwrap();
    assert_eq!(key.database(), "other");
    assert_eq!(key.collection(), "things");
    let err = resolver.resolve(&namespace("x", "  ")).unwrap_err();
    assert_eq!(err.status(), 400);
    assert_eq!(err.body.details, "collection must be provided");
    let bare = NamespaceResolver {
        default_database: None,
        default_collection: None,
    };
    let err = bare.resolve(&namespace("", "users")).unwrap_err();
    assert_eq!(err.body.error, "validation_error");
    assert_eq!(err.body.details, "database must be provided");
}

#[test]
fn namespace_key_keeps_its_names() {
    let key = NamespaceKey::new("db".to_string(), "coll".to_string());
    assert_eq!(key.database(), "db");
    assert_eq!(key.collection(), "coll");
}

#[test]
fn insert_many_requires_documents() {
    with_state(&config(None, None), |state| {
        let payload = namespace("app", "users");
        let err = prepare_insert_many(state, &payload, &Vec::new()).unwrap_err();
        assert_eq!(err.status(), 400);
    });
}

#[test]
fn test_validation_errors_for_missing_database() {
    with_state(&config(None, None), |state| {
        let payload = namespace("", "test");
        let err = collection_from_state(state, &payload).unwrap_err();
        assert_eq!(err.status(), 400);
    });
}

#[test]
fn test_validation_errors_for_missing_collection() {
    with_state(&config(None, None), |state| {
        let payload = namespace("test", "");
        let err = collection_from_state(state, &payload).unwrap_err();
        assert_eq!(err.status(), 400);
    });
}
