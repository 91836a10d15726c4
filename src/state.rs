use vstd::prelude::*;
use crate::config::{opt_view, Config};
use crate::error::ApiError;
use crate::models::NamespacePayload;
use crate::text::{trim, trimmed};
use dashmap::DashMap;
use mongodb::bson::Document;
use mongodb::{Client, Collection};
use std::sync::Arc;

verus! {

#[verifier::external_type_specification]
#[verifier::external_body]
#[verifier::reject_recursive_types(K)]
#[verifier::reject_recursive_types(V)]
#[verifier::reject_recursive_types(S)]
pub struct ExDashMap<K, V, S>(dashmap::DashMap<K, V, S>);

/// A fully resolved namespace: both names are non-empty.
#[derive(Debug, Clone, PartialEq, Eq, Hash)]
pub struct NamespaceKey {
    database: String,
    collection: String,
}

impl View for NamespaceKey {
    type V = (Seq<char>, Seq<char>);

    closed spec fn view(&self) -> (Seq<char>, Seq<char>) {
        (self.database@, self.collection@)
    }
}

impl NamespaceKey {
    pub fn new(database: String, collection: String) -> (r: NamespaceKey)
        ensures
            r@ == (database@, collection@),
    {
        NamespaceKey { database, collection }
    }

    pub fn database(&self) -> (r: &str)
        ensures
            r@ == self@.0,
    {
        self.database.as_str()
    }

    pub fn collection(&self) -> (r: &str)
        ensures
            r@ == self@.1,
    {
        self.collection.as_str()
    }
}

/// The name a request field resolves to: the trimmed request value, or the
/// configured default where that is blank.
pub open spec fn resolve_field(requested: Seq<char>, default: Option<Seq<char>>) -> Option<
    Seq<char>,
> {
    if trimmed(requested).len() > 0 {
        Some(trimmed(requested))
    } else {
        default
    }
}

/// Turns the namespace of a request into a full one, filling blank names
/// from the configured defaults.
#[derive(Debug, Clone)]
pub struct NamespaceResolver {
    pub default_database: Option<String>,
    pub default_collection: Option<String>,
}

impl NamespaceResolver {
    /// The resolved (database, collection) pair, or the details of the
    /// validation error.
    pub open spec fn resolution(&self, ns: NamespacePayload) -> Result<
        (Seq<char>, Seq<char>),
        Seq<char>,
    > {
        match resolve_field(ns.database@, opt_view(self.default_database)) {
            None => Err("database must be provided"@),
            Some(database) => match resolve_field(
                ns.collection@,
                opt_view(self.default_collection),
            ) {
                None => Err("collection must be provided"@),
                Some(collection) => Ok((database, collection)),
            },
        }
    }

    pub fn from_config(config: &Config) -> (r: NamespaceResolver)
        ensures
            opt_view(r.default_database) == opt_view(config.default_database),
            opt_view(r.default_collection) == opt_view(config.default_collection),
    {
        NamespaceResolver {
            default_database: config.default_database.clone(),
            default_collection: config.default_collection.clone(),
        }
    }

    pub fn resolve(&self, namespace: &NamespacePayload) -> (r: Result<NamespaceKey, ApiError>)
        ensures
            match self.resolution(*namespace) {
                Ok(pair) => r is Ok && r->Ok_0@ == pair,
                Err(details) => r is Err && r->Err_0.is_validation(details),
            },
    {
        let database = match resolve_name(namespace.database.as_str(), &self.default_database) {
            Some(name) => name,
            None => return Err(ApiError::validation("database must be provided")),
        };
        let collection = match resolve_name(
            namespace.collection.as_str(),
            &self.default_collection,
        ) {
            Some(name) => name,
            None => return Err(ApiError::validation("collection must be provided")),
        };
        Ok(NamespaceKey::new(database, collection))
    }
}

fn resolve_name(requested: &str, default: &Option<String>) -> (r: Option<String>)
    ensures
        opt_view(r) == resolve_field(requested@, opt_view(*default)),
{
    let name = trim(requested);
    if name.is_empty() {
        match default {
            Some(d) => Some(d.clone()),
            None => None,
        }
    } else {
        Some(name.to_owned())
    }
}

/// Resolution succeeds exactly when each name is non-blank after trimming or
/// has a configured default; a blank name without a default is a validation
/// error.
pub proof fn lemma_resolution_succeeds(resolver: NamespaceResolver, ns: NamespacePayload)
    ensures
        resolver.resolution(ns) is Ok <==> (trimmed(ns.database@).len() > 0
            || resolver.default_database is Some) && (trimmed(ns.collection@).len() > 0
            || resolver.default_collection is Some),
        trimmed(ns.database@).len() == 0 && resolver.default_database is None
            ==> resolver.resolution(ns) == Err::<(Seq<char>, Seq<char>), Seq<char>>(
            "database must be provided"@,
        ),
        trimmed(ns.database@).len() > 0 && trimmed(ns.collection@).len() == 0
            && resolver.default_collection is None ==> resolver.resolution(ns) == Err::<
            (Seq<char>, Seq<char>),
            Seq<char>,
        >("collection must be provided"@),
{
}

/// Two requests whose names differ only in surrounding white space resolve
/// to the same namespace.
pub proof fn lemma_whitespace_variants_resolve_alike(
    resolver: NamespaceResolver,
    a: NamespacePayload,
    b: NamespacePayload,
)
    requires
        trimmed(a.database@) == trimmed(b.database@),
        trimmed(a.collection@) == trimmed(b.collection@),
    ensures
        resolver.resolution(a) == resolver.resolution(b),
{
}

/// The (database, collection) names that a collection handle is bound to,
/// as `mongodb::Collection::namespace` reports them.
pub uninterp spec fn handle_target(c: Collection<Document>) -> (Seq<char>, Seq<char>);

/// Relies on `mongodb::Client::database` and `mongodb::Database::collection`,
/// which make a handle for the given names without I/O.
#[verifier::external_body]
fn open_collection(client: &Client, database: &str, collection: &str) -> (r: Collection<Document>)
    ensures
        handle_target(r) == (database@, collection@),
{
    client.database(database).collection::<Document>(collection)
}

/// Relies on `Collection`'s `Clone`, which shares the same handle.
#[verifier::external_body]
fn clone_handle(c: &Collection<Document>) -> (r: Collection<Document>)
    ensures
        handle_target(r) == handle_target(*c),
{
    c.clone()
}

/// Relies on `mongodb::Collection::namespace`, which reads the names the
/// handle is bound to.
#[verifier::external_body]
fn handle_names(c: &Collection<Document>) -> (r: (String, String))
    ensures
        (r.0@, r.1@) == handle_target(*c),
{
    let namespace = c.namespace();
    (namespace.db, namespace.coll)
}

/// Relies on `dashmap::DashMap::new`, an empty concurrent map.
#[verifier::external_body]
fn new_handle_cache() -> DashMap<NamespaceKey, Collection<Document>> {
    DashMap::new()
}

/// Relies on `dashmap::DashMap::get`; the entry is read under its shard's lock
/// and a clone of the handle is returned. Other requests may change the map at
/// any time, so nothing is stated of the outcome.
#[verifier::external_body]
fn cached_handle(
    cache: &DashMap<NamespaceKey, Collection<Document>>,
    key: &NamespaceKey,
) -> Option<Collection<Document>> {
    cache.get(key).map(|entry| entry.value().clone())
}

/// Relies on `dashmap::DashMap::insert`, which stores or replaces the entry
/// through a shared reference.
#[verifier::external_body]
fn store_handle(
    cache: &DashMap<NamespaceKey, Collection<Document>>,
    key: NamespaceKey,
    handle: Collection<Document>,
) {
    cache.insert(key, handle);
}

/// The state that all requests share: the store client, the namespace
/// defaults and the cache of collection handles.
#[derive(Clone)]
pub struct AppState {
    inner: Arc<AppStateInner>,
}

struct AppStateInner {
    client: Client,
    resolver: NamespaceResolver,
    collections: DashMap<NamespaceKey, Collection<Document>>,
}

impl AppStateInner {
    /// The cached handle of `namespace`, or a new one, which is cached. A
    /// cached handle is used only when it is bound to `namespace`.
    fn collection_for(&self, namespace: &NamespaceKey) -> (r: Collection<Document>)
        ensures
            handle_target(r) == namespace@,
    {
        if let Some(handle) = cached_handle(&self.collections, namespace) {
            let (database, collection) = handle_names(&handle);
            if database == namespace.database && collection == namespace.collection {
                return handle;
            }
        }
        let handle = open_collection(&self.client, namespace.database(), namespace.collection());
        store_handle(&self.collections, namespace.clone(), clone_handle(&handle));
        handle
    }
}

impl AppState {
    /// The namespace rules that this state applies.
    pub closed spec fn resolver(&self) -> NamespaceResolver {
        self.inner.resolver
    }

    pub fn new(client: Client, config: &Config) -> (r: AppState)
        ensures
            opt_view(r.resolver().default_database) == opt_view(config.default_database),
            opt_view(r.resolver().default_collection) == opt_view(config.default_collection),
    {
        let inner = AppStateInner {
            client,
            resolver: NamespaceResolver::from_config(config),
            collections: new_handle_cache(),
        };
        AppState { inner: Arc::new(inner) }
    }

    pub fn client(&self) -> &Client {
        &self.inner.client
    }

    /// The handle of the namespace that `namespace` resolves to, made once per
    /// namespace and shared after that.
    pub fn collection(&self, namespace: &NamespacePayload) -> (r: Result<
        Collection<Document>,
        ApiError,
    >)
        ensures
            match self.resolver().resolution(*namespace) {
                Ok(pair) => r is Ok && handle_target(r->Ok_0) == pair,
                Err(details) => r is Err && r->Err_0.is_validation(details),
            },
    {
        let resolved = match self.resolve_namespace(namespace) {
            Ok(key) => key,
            Err(e) => return Err(e),
        };
        Ok(self.inner.collection_for(&resolved))
    }

    pub fn resolve_namespace(&self, namespace: &NamespacePayload) -> (r: Result<
        NamespaceKey,
        ApiError,
    >)
        ensures
            match self.resolver().resolution(*namespace) {
                Ok(pair) => r is Ok && r->Ok_0@ == pair,
                Err(details) => r is Err && r->Err_0.is_validation(details),
            },
    {
        self.inner.resolver.resolve(namespace)
    }
}

} // verus!
