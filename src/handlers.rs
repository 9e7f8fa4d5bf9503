use vstd::prelude::*;
use vstd::string::StringExecFns;
use crate::client::{ServiceError, details_of};

verus! {

/// The JSON body a route answers with.
pub enum Reply {
    /// A document of the service, handed back verbatim.
    Document(serde_json::Value),
    /// `{"status": .., "id": ..}` after a deletion.
    Deleted { status: String, id: String },
    /// `{"error": .., "details": ..}` when the service call failed.
    Failure { error: String, details: String },
}

/// Message of a failed creation.
pub const SAVE_FAILED: &'static str = "Failed to save expense";

/// Message of a failed listing.
pub const FETCH_FAILED: &'static str = "Failed to fetch expenses";

/// Message of a failed update.
pub const UPDATE_FAILED: &'static str = "Failed to update expense";

/// Message of a failed deletion.
pub const DELETE_FAILED: &'static str = "Failed to delete expense";

/// Whether `r` is the failure envelope with `message` and the error's details.
pub open spec fn is_failure_reply(r: Reply, message: Seq<char>, e: ServiceError) -> bool {
    r matches Reply::Failure { error, details } && error@ == message && details@ == details_of(e)
}

fn failure(message: &str, e: ServiceError) -> (r: Reply)
    ensures
        is_failure_reply(r, message@, e),
{
    Reply::Failure { error: String::from_str(message), details: e.details() }
}

/// The answer to a document request: the document, or the failure envelope.
fn document_reply(outcome: Result<serde_json::Value, ServiceError>, message: &str) -> (r: Reply)
    ensures
        outcome matches Ok(v) ==> r == Reply::Document(v),
        outcome matches Err(e) ==> is_failure_reply(r, message@, e),
{
    match outcome {
        Ok(v) => Reply::Document(v),
        Err(e) => failure(message, e),
    }
}

/// The answer to a creation: the created document as the service returned
/// it, or the failure envelope.
pub fn create_expense(outcome: Result<serde_json::Value, ServiceError>) -> (r: Reply)
    ensures
        outcome matches Ok(v) ==> r == Reply::Document(v),
        outcome matches Err(e) ==> is_failure_reply(r, SAVE_FAILED@, e),
{
    document_reply(outcome, SAVE_FAILED)
}

/// The answer to a listing: the service's listing as it came, or the failure
/// envelope.
pub fn get_expenses(outcome: Result<serde_json::Value, ServiceError>) -> (r: Reply)
    ensures
        outcome matches Ok(v) ==> r == Reply::Document(v),
        outcome matches Err(e) ==> is_failure_reply(r, FETCH_FAILED@, e),
{
    document_reply(outcome, FETCH_FAILED)
}

/// The answer to an update: the updated document, or the failure envelope.
pub fn update_expense(outcome: Result<serde_json::Value, ServiceError>) -> (r: Reply)
    ensures
        outcome matches Ok(v) ==> r == Reply::Document(v),
        outcome matches Err(e) ==> is_failure_reply(r, UPDATE_FAILED@, e),
{
    document_reply(outcome, UPDATE_FAILED)
}

/// The answer to a deletion of `id`: on success the envelope names the
/// deleted identifier, else it is the failure envelope.
pub fn delete_expense(id: String, outcome: Result<(), ServiceError>) -> (r: Reply)
    ensures
        outcome is Ok ==> (r matches Reply::Deleted { status, id: echoed } && status@
            == "deleted"@ && echoed == id),
        outcome matches Err(e) ==> is_failure_reply(r, DELETE_FAILED@, e),
{
    match outcome {
        Ok(()) => Reply::Deleted { status: String::from_str("deleted"), id },
        Err(e) => failure(DELETE_FAILED, e),
    }
}

/// No route answers a failure with an empty body: each failure envelope
/// carries a message that is not empty.
pub proof fn lemma_failure_messages_not_empty(r: Reply, message: Seq<char>, e: ServiceError)
    requires
        message == SAVE_FAILED@ || message == FETCH_FAILED@ || message == UPDATE_FAILED@
            || message == DELETE_FAILED@,
        is_failure_reply(r, message, e),
    ensures
        r matches Reply::Failure { error, .. } && error@.len() > 0,
{
    reveal_strlit("Failed to save expense");
    reveal_strlit("Failed to fetch expenses");
    reveal_strlit("Failed to update expense");
    reveal_strlit("Failed to delete expense");
}

} // verus!
