//! The error taxonomy shared by every resource kind.

use vstd::prelude::*;
use vstd::string::*;

verus! {

/// A server-style rejection: status, human message, machine reason and HTTP code.
pub struct ApiError {
    pub status: String,
    pub message: String,
    pub reason: String,
    pub code: u16,
}

/// Errors of the resource access layer. No variant is specific to a kind:
/// only the message text carries the kind's name.
pub enum K8sError {
    /// The API rejected the operation, or the request was refused before any call.
    Api(ApiError),
    /// Kubeconfig missing, unreadable or malformed, or the context is unknown.
    Config(String),
    /// The cluster could not be reached or the client could not be built.
    Connection(String),
    /// A fetched object could not be turned into a generic value.
    Serialization(String),
    /// A shared registry was poisoned by an earlier panic.
    Lock(String),
}

/// The message of the error that refuses a namespaced operation without a namespace.
pub open spec fn namespace_required_message(kind: Seq<char>) -> Seq<char> {
    "Namespace required for "@ + kind
}

/// A `BadRequest` API error (HTTP 400) with the given message.
pub open spec fn is_bad_request(e: K8sError, message: Seq<char>) -> bool {
    match e {
        K8sError::Api(a) => a.status@ == "Failure"@ && a.reason@ == "BadRequest"@ && a.code
            == 400 && a.message@ == message,
        _ => false,
    }
}

/// The error that refuses a namespaced operation without a namespace.
pub open spec fn is_namespace_required(e: K8sError, kind: Seq<char>) -> bool {
    is_bad_request(e, namespace_required_message(kind))
}

/// A `BadRequest` error carrying `message`.
pub fn bad_request(message: String) -> (r: K8sError)
    ensures
        is_bad_request(r, message@),
{
    K8sError::Api(
        ApiError {
            status: String::from_str("Failure"),
            message,
            reason: String::from_str("BadRequest"),
            code: 400,
        },
    )
}

/// The error returned when a namespaced kind is addressed without a namespace.
pub fn require_namespace(kind: &str) -> (r: K8sError)
    ensures
        is_namespace_required(r, kind@),
{
    bad_request(String::from_str("Namespace required for ").concat(kind))
}

} // verus!
