use vstd::prelude::*;
use vstd::string::{to_string_from_display_ensures, StringExecFns};
use crate::error::ApiError;
use crate::models::{
    CollectionQuery, DeleteResponse, FindOneResponse, NamespacePayload, UpdateResponse,
};
use crate::state::{handle_target, lemma_whitespace_variants_resolve_alike, AppState};
use crate::text::{trim, trimmed};
use mongodb::bson::Document;
use mongodb::Collection;

verus! {

pub const INSERT_ONE_PATH: &'static str = "/api/v1/documents/insert-one";

pub const INSERT_MANY_PATH: &'static str = "/api/v1/documents/insert-many";

pub const FIND_ONE_PATH: &'static str = "/api/v1/documents/find-one";

pub const FIND_MANY_PATH: &'static str = "/api/v1/documents/find-many";

pub const UPDATE_ONE_PATH: &'static str = "/api/v1/documents/update-one";

pub const UPDATE_MANY_PATH: &'static str = "/api/v1/documents/update-many";

pub const REPLACE_ONE_PATH: &'static str = "/api/v1/documents/replace-one";

pub const DELETE_ONE_PATH: &'static str = "/api/v1/documents/delete-one";

pub const DELETE_MANY_PATH: &'static str = "/api/v1/documents/delete-many";

pub const LIST_COLLECTIONS_PATH: &'static str = "/api/v1/collections";

/// The trimmed database and collection names of a request.
pub fn namespace_fields(namespace: &NamespacePayload) -> (r: (&str, &str))
    ensures
        r.0@ == trimmed(namespace.database@),
        r.1@ == trimmed(namespace.collection@),
{
    (trim(namespace.database.as_str()), trim(namespace.collection.as_str()))
}

/// The outcome of checking that a request names both a database and a
/// collection.
pub open spec fn non_empty_check(namespace: NamespacePayload) -> Result<(), Seq<char>> {
    if trimmed(namespace.database@).len() == 0 {
        Err("database must be provided"@)
    } else if trimmed(namespace.collection@).len() == 0 {
        Err("collection must be provided"@)
    } else {
        Ok(())
    }
}

/// `r` carries the validation error of `check`, or is `Ok` where the check
/// passed.
pub open spec fn follows_check<T>(check: Result<(), Seq<char>>, r: Result<T, ApiError>) -> bool {
    match check {
        Ok(_) => r is Ok,
        Err(details) => r is Err && r->Err_0.is_validation(details),
    }
}

pub fn ensure_non_empty(namespace: &NamespacePayload) -> (r: Result<(), ApiError>)
    ensures
        follows_check(non_empty_check(*namespace), r),
{
    if trim(namespace.database.as_str()).is_empty() {
        return Err(ApiError::validation("database must be provided"));
    }
    if trim(namespace.collection.as_str()).is_empty() {
        return Err(ApiError::validation("collection must be provided"));
    }
    Ok(())
}

/// `r` carries the validation error of resolving `namespace` under `state`'s
/// defaults, or the handle bound to the resolved namespace.
pub open spec fn follows_resolution(
    state: AppState,
    namespace: NamespacePayload,
    r: Result<Collection<Document>, ApiError>,
) -> bool {
    match state.resolver().resolution(namespace) {
        Ok(pair) => r is Ok && handle_target(r->Ok_0) == pair,
        Err(details) => r is Err && r->Err_0.is_validation(details),
    }
}

/// The handle for the namespace a request resolves to; blank names take the
/// configured defaults.
pub fn collection_from_state(state: &AppState, namespace: &NamespacePayload) -> (r: Result<
    Collection<Document>,
    ApiError,
>)
    ensures
        follows_resolution(*state, *namespace, r),
{
    state.collection(namespace)
}

/// Two requests whose names differ only in surrounding white space get
/// handles bound to the same namespace, or fail alike.
pub proof fn lemma_whitespace_variants_share_handle_target(
    state: AppState,
    a: NamespacePayload,
    b: NamespacePayload,
    ra: Result<Collection<Document>, ApiError>,
    rb: Result<Collection<Document>, ApiError>,
)
    requires
        trimmed(a.database@) == trimmed(b.database@),
        trimmed(a.collection@) == trimmed(b.collection@),
        follows_resolution(state, a, ra),
        follows_resolution(state, b, rb),
    ensures
        ra is Ok <==> rb is Ok,
        ra is Ok ==> handle_target(ra->Ok_0) == handle_target(rb->Ok_0),
{
    lemma_whitespace_variants_resolve_alike(state.resolver(), a, b);
}

/// The checks before an insert of many documents: the list must not be
/// empty, which is checked before the namespace is looked at.
pub fn prepare_insert_many(
    state: &AppState,
    namespace: &NamespacePayload,
    documents: &Vec<Document>,
) -> (r: Result<Collection<Document>, ApiError>)
    ensures
        documents@.len() == 0 ==> r is Err && r->Err_0.is_validation(
            "documents must not be empty"@,
        ),
        documents@.len() > 0 ==> follows_resolution(*state, *namespace, r),
{
    if documents.len() == 0 {
        return Err(ApiError::validation("documents must not be empty"));
    }
    collection_from_state(state, namespace)
}

/// A find-one that matched nothing is a not-found error, never an empty
/// success.
pub fn find_one_outcome(found: Option<Document>) -> (r: Result<FindOneResponse, ApiError>)
    ensures
        found is None ==> r is Err && r->Err_0.is_not_found("document not found"@),
        found is Some ==> r is Ok && r->Ok_0.document == found->Some_0,
{
    match found {
        Some(document) => Ok(FindOneResponse { document }),
        None => Err(ApiError::not_found("document not found")),
    }
}

/// Whether an update of one document found nothing to act on: nothing
/// matched, nothing was upserted and no upsert was asked for.
pub open spec fn nothing_matched(
    matched_count: u64,
    upserted: bool,
    upsert_requested: Option<bool>,
) -> bool {
    matched_count == 0 && !upserted && upsert_requested != Some(true)
}

/// The response to an update-one or replace-one, given the counts the store
/// reported and the request's `upsert` option.
pub fn update_one_outcome(counts: UpdateResponse, upsert_requested: Option<bool>) -> (r: Result<
    UpdateResponse,
    ApiError,
>)
    ensures
        nothing_matched(counts.matched_count, counts.upserted_id is Some, upsert_requested) ==> r is Err
            && r->Err_0.is_not_found("no documents matched the filter"@),
        !nothing_matched(counts.matched_count, counts.upserted_id is Some, upsert_requested) ==> r
            == Ok::<UpdateResponse, ApiError>(counts),
{
    let requested = match upsert_requested {
        Some(flag) => flag,
        None => false,
    };
    if counts.matched_count == 0 && counts.upserted_id.is_none() && !requested {
        return Err(ApiError::not_found("no documents matched the filter"));
    }
    Ok(counts)
}

/// The response to a delete-one: removing nothing is a not-found error.
pub fn delete_one_outcome(counts: DeleteResponse) -> (r: Result<DeleteResponse, ApiError>)
    ensures
        counts.deleted_count == 0 ==> r is Err && r->Err_0.is_not_found(
            "no documents matched the filter"@,
        ),
        counts.deleted_count > 0 ==> r == Ok::<DeleteResponse, ApiError>(counts),
{
    if counts.deleted_count == 0 {
        return Err(ApiError::not_found("no documents matched the filter"));
    }
    Ok(counts)
}

/// The response to a delete-many: always a success with the count, zero
/// included.
pub fn delete_many_outcome(counts: DeleteResponse) -> (r: Result<DeleteResponse, ApiError>)
    ensures
        r == Ok::<DeleteResponse, ApiError>(counts),
{
    Ok(counts)
}

/// A list of collections needs a database name that is not blank.
pub fn check_collection_query(query: &CollectionQuery) -> (r: Result<(), ApiError>)
    ensures
        trimmed(query.database@).len() == 0 ==> r is Err && r->Err_0.is_validation(
            "database must be provided"@,
        ),
        trimmed(query.database@).len() > 0 ==> r is Ok,
{
    if trim(query.database.as_str()).is_empty() {
        return Err(ApiError::validation("database must be provided"));
    }
    Ok(())
}

/// A failure of the store, as sent to the client: the details are the
/// error's own message after a fixed prefix, with a fresh correlation id.
pub fn map_driver_error(err: mongodb::error::Error) -> (r: ApiError)
    ensures
        exists|text: String|
            to_string_from_display_ensures::<mongodb::error::Error>(&err, text)
                && #[trigger] r.is_driver("mongodb error: "@ + text@),
        r.body.correlation_id->Some_0@.len() == 36,
{
    let text = err.to_string();
    let details = String::from_str("mongodb error: ").concat(text.as_str());
    let r = ApiError::driver(details.as_str());
    assert(r.is_driver("mongodb error: "@ + text@));
    r
}

/// A structured log record of one step of a request, which the server
/// writes to its log.
#[derive(Debug)]
pub enum RequestEvent {
    /// A request arrived.
    Received {
        endpoint: String,
        database: String,
        collection: String,
        payload_items: Option<u64>,
    },
    /// A request succeeded.
    Completed {
        endpoint: String,
        database: String,
        collection: String,
        status: u16,
        affected: Option<u64>,
    },
    /// A request failed with the given status.
    Failed { endpoint: String, namespace: Option<(String, String)>, status: u16 },
}

/// The record of a request's arrival, with its trimmed names.
pub fn log_namespace_received(
    endpoint: &str,
    namespace: &NamespacePayload,
    payload_items: Option<usize>,
) -> (r: RequestEvent)
    ensures
        match r {
            RequestEvent::Received { endpoint: e, database, collection, payload_items: items } => {
                &&& e@ == endpoint@
                &&& database@ == trimmed(namespace.database@)
                &&& collection@ == trimmed(namespace.collection@)
                &&& items == match payload_items {
                    Some(n) => Some(n as u64),
                    None => None,
                }
            },
            _ => false,
        },
{
    let (database, collection) = namespace_fields(namespace);
    let items = match payload_items {
        Some(n) => Some(n as u64),
        None => None,
    };
    RequestEvent::Received {
        endpoint: String::from_str(endpoint),
        database: String::from_str(database),
        collection: String::from_str(collection),
        payload_items: items,
    }
}

/// The record of a request's success.
pub fn log_namespace_success(
    endpoint: &str,
    namespace: &NamespacePayload,
    status: u16,
    affected: Option<u64>,
) -> (r: RequestEvent)
    ensures
        match r {
            RequestEvent::Completed {
                endpoint: e,
                database,
                collection,
                status: s,
                affected: a,
            } => {
                &&& e@ == endpoint@
                &&& database@ == trimmed(namespace.database@)
                &&& collection@ == trimmed(namespace.collection@)
                &&& s == status
                &&& a == affected
            },
            _ => false,
        },
{
    let (database, collection) = namespace_fields(namespace);
    RequestEvent::Completed {
        endpoint: String::from_str(endpoint),
        database: String::from_str(database),
        collection: String::from_str(collection),
        status,
        affected,
    }
}

/// The record of a request's failure; the error itself is handed back
/// unchanged.
pub fn log_request_failure(
    endpoint: &str,
    namespace: Option<&NamespacePayload>,
    error: ApiError,
) -> (r: (ApiError, RequestEvent))
    ensures
        r.0 == error,
        match r.1 {
            RequestEvent::Failed { endpoint: e, namespace: names, status } => {
                &&& e@ == endpoint@
                &&& status == error.status
                &&& names is Some <==> namespace is Some
                &&& names is Some ==> names->Some_0.0@ == trimmed(namespace->Some_0.database@)
                    && names->Some_0.1@ == trimmed(namespace->Some_0.collection@)
            },
            _ => false,
        },
{
    let names = match namespace {
        Some(ns) => {
            let (database, collection) = namespace_fields(ns);
            Some((String::from_str(database), String::from_str(collection)))
        },
        None => None,
    };
    let status = error.status();
    (error, RequestEvent::Failed { endpoint: String::from_str(endpoint), namespace: names, status })
}

} // verus!
