use vstd::prelude::*;
use vstd::string::StringExecFns;

verus! {

/// HTTP status of a request rejected for a defect in its input.
pub const BAD_REQUEST: u16 = 400;

/// HTTP status of a well-formed request that matched no resource.
pub const NOT_FOUND: u16 = 404;

/// HTTP status of a failure in the document store.
pub const BAD_GATEWAY: u16 = 502;

/// The body sent to the client with every failure.
#[derive(Debug)]
pub struct ErrorResponse {
    /// The category: `validation_error`, `not_found` or `driver_error`.
    pub error: &'static str,
    pub details: String,
    /// Present on store failures only, to find them in the logs.
    pub correlation_id: Option<String>,
}

/// A failed request: the status code and the body that go to the client.
#[derive(Debug)]
pub struct ApiError {
    pub status: u16,
    pub body: ErrorResponse,
}

impl ApiError {
    /// A rejection of client input, with the given details.
    pub open spec fn is_validation(&self, details: Seq<char>) -> bool {
        &&& self.status == BAD_REQUEST
        &&& self.body.error@ == "validation_error"@
        &&& self.body.details@ == details
        &&& self.body.correlation_id is None
    }

    /// A request that matched nothing, with the given details.
    pub open spec fn is_not_found(&self, details: Seq<char>) -> bool {
        &&& self.status == NOT_FOUND
        &&& self.body.error@ == "not_found"@
        &&& self.body.details@ == details
        &&& self.body.correlation_id is None
    }

    /// A failure of the document store, with the given details.
    pub open spec fn is_driver(&self, details: Seq<char>) -> bool {
        &&& self.status == BAD_GATEWAY
        &&& self.body.error@ == "driver_error"@
        &&& self.body.details@ == details
        &&& self.body.correlation_id is Some
    }

    pub fn validation(details: &str) -> (r: ApiError)
        ensures
            r.is_validation(details@),
    {
        ApiError {
            status: BAD_REQUEST,
            body: ErrorResponse {
                error: "validation_error",
                details: String::from_str(details),
                correlation_id: None,
            },
        }
    }

    pub fn not_found(details: &str) -> (r: ApiError)
        ensures
            r.is_not_found(details@),
    {
        ApiError {
            status: NOT_FOUND,
            body: ErrorResponse {
                error: "not_found",
                details: String::from_str(details),
                correlation_id: None,
            },
        }
    }

    /// A store failure; it carries a fresh correlation identifier.
    pub fn driver(details: &str) -> (r: ApiError)
        ensures
            r.is_driver(details@),
            r.body.correlation_id->Some_0@.len() == 36,
    {
        let correlation_id = new_correlation_id();
        ApiError {
            status: BAD_GATEWAY,
            body: ErrorResponse {
                error: "driver_error",
                details: String::from_str(details),
                correlation_id: Some(correlation_id),
            },
        }
    }

    pub fn status(&self) -> (r: u16)
        ensures
            r == self.status,
    {
        self.status
    }
}

/// Relies on `uuid::Uuid::new_v4` for a random identifier, written in the
/// hyphenated form of uuid's `Display`, which is 36 characters long.
#[verifier::external_body]
fn new_correlation_id() -> (r: String)
    ensures
        r@.len() == 36,
{
    uuid::Uuid::new_v4().to_string()
}

} // verus!
