use mongo_gateway::error::{BAD_REQUEST, NOT_FOUND};
use mongo_gateway::handlers::{
    check_collection_query, delete_many_outcome, delete_one_outcome, ensure_non_empty,
    find_one_outcome, log_namespace_received, log_namespace_success, log_request_failure,
    namespace_fields, update_one_outcome, RequestEvent,
};
use mongo_gateway::error::ApiError;
use mongo_gateway::models::{
    CollectionQuery, DeleteResponse, InsertManyResponse, NamespacePayload, UpdateResponse,
};
use mongodb::bson::{Bson, Document};
use std::collections::HashMap;

fn namespace(database: &str, collection: &str) -> NamespacePayload {
    NamespacePayload {
        database: database.into(),
        collection: collection.into(),
    }
}

#[test]
fn ensure_non_empty_accepts_populated_namespace() {
    let payload = namespace("app", "users");
    assert!(ensure_non_empty(&payload).is_ok());
}

#[test]
fn ensure_non_empty_rejects_blank_database() {
    let payload = namespace("   ", "users");
    let err = ensure_non_empty(&payload).expect_err("expected validation error");
    assert_eq!(err.status(), BAD_REQUEST);
}

#[test]
fn ensure_non_empty_rejects_blank_collection() {
    let payload = namespace("app", "   ");
    let err = ensure_non_empty(&payload).expect_err("expected validation error");
    assert_eq!(err.status(), BAD_REQUEST);
}

#[test]
fn collection_from_state_validates_namespace() {
    let payload = namespace("", "users");
    let err = ensure_non_empty(&payload).expect_err("expected validation error");
    assert_eq!(err.status(), BAD_REQUEST);
}

#[test]
fn ensure_non_empty_names_the_missing_field() {
    let err = ensure_non_empty(&namespace("\t\n", "")).unwrap_err();
    assert_eq!(err.body.details, "database must be provided");
    let err = ensure_non_empty(&namespace("app", "\u{3000}")).unwrap_err();
    assert_eq!(err.body.details, "collection must be provided");
}

#[test]
fn log_request_failure_preserves_error() {
    let error = ApiError::validation("oops");
    let status = error.status();
    let (returned, event) = log_request_failure("/test", None, error);
    assert_eq!(returned.status(), status);
    assert_eq!(returned.body.details, "oops");
    match event {
        RequestEvent::Failed { endpoint, namespace, status } => {
            assert_eq!(endpoint, "/test");
            assert!(namespace.is_none());
            assert_eq!(status, 400);
        }
        _ => panic!("expected a failure record"),
    }
}

#[test]
fn namespace_fields_trims_whitespace() {
    let payload = namespace("  db  ", "  coll  ");
    let (db, coll) = namespace_fields(&payload);
    assert_eq!(db, "db");
    assert_eq!(coll, "coll");
}

#[test]
fn log_records_carry_trimmed_names() {
    let payload = namespace(" app ", " users ");
    match log_namespace_received("/x", &payload, Some(3)) {
        RequestEvent::Received { endpoint, database, collection, payload_items } => {
            assert_eq!(endpoint, "/x");
            assert_eq!(database, "app");
            assert_eq!(collection, "users");
            assert_eq!(payload_items, Some(3));
        }
        _ => panic!("expected an arrival record"),
    }
    match log_namespace_success("/x", &payload, 200, Some(2)) {
        RequestEvent::Completed { database, collection, status, affected, .. } => {
            assert_eq!(database, "app");
            assert_eq!(collection, "users");
            assert_eq!(status, 200);
            assert_eq!(affected, Some(2));
        }
        _ => panic!("expected a completion record"),
    }
    let (_, event) = log_request_failure("/x", Some(&payload), ApiError::not_found("n"));
    match event {
        RequestEvent::Failed { namespace, status, .. } => {
            assert_eq!(namespace, Some(("app".to_string(), "users".to_string())));
            assert_eq!(status, 404);
        }
        _ => panic!("expected a failure record"),
    }
}

#[test]
fn update_response_reflects_update_result_fields() {
    let response = UpdateResponse::from_parts(3, 2, Some(Bson::Int32(42)));

    assert_eq!(response.matched_count, 3);
    assert_eq!(response.modified_count, 2);
    assert_eq!(response.upserted_id, Some(Bson::Int32(42)));
}

#[test]
fn insert_many_response_sorts_inserted_ids() {
    let mut inserted_ids: HashMap<usize, Bson> = HashMap::new();
    inserted_ids.insert(2, Bson::Int32(2));
    inserted_ids.insert(0, Bson::Int32(0));
    inserted_ids.insert(1, Bson::Int32(1));

    let response = InsertManyResponse::from_inserted_ids(inserted_ids);

    assert_eq!(
        response.inserted_ids,
        vec![Bson::Int32(0), Bson::Int32(1), Bson::Int32(2)]
    );
}

#[test]
fn insert_many_ids_follow_document_order() {
    let mut inserted_ids: HashMap<usize, Bson> = HashMap::new();
    for position in (0..20usize).rev() {
        inserted_ids.insert(position, Bson::String(format!("id{position}")));
    }
    let response = InsertManyResponse::from_inserted_ids(inserted_ids);
    assert_eq!(response.inserted_ids.len(), 20);
    for (position, id) in response.inserted_ids.iter().enumerate() {
        assert_eq!(id, &Bson::String(format!("id{position}")));
    }
}

#[test]
fn insert_many_ids_with_gaps_keep_key_order() {
    let mut inserted_ids: HashMap<usize, Bson> = HashMap::new();
    inserted_ids.insert(9, Bson::Int32(9));
    inserted_ids.insert(4, Bson::Int32(4));
    inserted_ids.insert(usize::MAX, Bson::Null);
    let response = InsertManyResponse::from_inserted_ids(inserted_ids);
    assert_eq!(
        response.inserted_ids,
        vec![Bson::Int32(4), Bson::Int32(9), Bson::Null]
    );
    let empty = InsertManyResponse::from_inserted_ids(HashMap::new());
    assert!(empty.inserted_ids.is_empty());
}

#[test]
fn find_one_without_match_is_not_found() {
    let err = find_one_outcome(None).unwrap_err();
    assert_eq!(err.status(), NOT_FOUND);
    assert_eq!(err.body.error, "not_found");
    assert_eq!(err.body.details, "document not found");
}

#[test]
fn find_one_returns_the_stored_document() {
    let mut stored = Document::new();
    stored.insert("name", "a");
    let response = find_one_outcome(Some(stored)).unwrap();
    assert_eq!(response.document.get_str("name").unwrap(), "a");
}

#[test]
fn update_one_without_match_is_not_found() {
    for upsert in [None, Some(false)] {
        let err = update_one_outcome(UpdateResponse::from_parts(0, 0, None), upsert).unwrap_err();
        assert_eq!(err.status(), NOT_FOUND);
        assert_eq!(err.body.error, "not_found");
        assert_eq!(err.body.details, "no documents matched the filter");
    }
}

#[test]
fn update_one_with_match_reports_counts() {
    let response = update_one_outcome(UpdateResponse::from_parts(1, 1, None), None).unwrap();
    assert_eq!(response.matched_count, 1);
    assert_eq!(response.modified_count, 1);
    assert_eq!(response.upserted_id, None);
    let response = update_one_outcome(UpdateResponse::from_parts(3, 0, None), Some(false)).unwrap();
    assert_eq!(response.matched_count, 3);
    assert_eq!(response.modified_count, 0);
}

#[test]
fn update_one_with_upsert_is_not_an_error() {
    let response = update_one_outcome(UpdateResponse::from_parts(0, 0, None), Some(true)).unwrap();
    assert_eq!(response.matched_count, 0);
    let response =
        update_one_outcome(UpdateResponse::from_parts(0, 0, Some(Bson::Int32(7))), None).unwrap();
    assert_eq!(response.upserted_id, Some(Bson::Int32(7)));
}

#[test]
fn delete_one_without_match_is_not_found() {
    let err = delete_one_outcome(DeleteResponse { deleted_count: 0 }).unwrap_err();
    assert_eq!(err.status(), NOT_FOUND);
    assert_eq!(err.body.error, "not_found");
    assert!(err.body.correlation_id.is_none());
    let ok = delete_one_outcome(DeleteResponse { deleted_count: 1 }).unwrap();
    assert_eq!(ok.deleted_count, 1);
}

#[test]
fn delete_many_without_match_still_succeeds() {
    let response = delete_many_outcome(DeleteResponse { deleted_count: 0 }).unwrap();
    assert_eq!(response.deleted_count, 0);
    let response = delete_many_outcome(DeleteResponse { deleted_count: 5 }).unwrap();
    assert_eq!(response.deleted_count, 5);
}

#[test]
fn list_collections_requires_database() {
    for blank in ["", "   "] {
        let query = CollectionQuery { database: blank.to_string() };
        let err = check_collection_query(&query).unwrap_err();
        assert_eq!(err.status(), BAD_REQUEST);
        assert_eq!(err.body.details, "database must be provided");
    }
    let query = CollectionQuery { database: "app".to_string() };
    assert!(check_collection_query(&query).is_ok());
}

#[test]
fn test_list_collections_requires_database() {
    let query = CollectionQuery { database: String::new() };
    let err = check_collection_query(&query).unwrap_err();
    assert_eq!(err.status(), BAD_REQUEST);
}
