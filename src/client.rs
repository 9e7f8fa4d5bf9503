use vstd::prelude::*;
use vstd::string::StringExecFns;
use crate::config::AppwriteService;
use crate::models::ExpensePayload;

verus! {

/// The HTTP verb of a request to the document service.
#[derive(PartialEq, Eq, Structural, Clone, Copy, Debug)]
pub enum Method {
    Get,
    Post,
    Patch,
    Delete,
}

/// The JSON body of a creation or update request: `{"documentId": .., "data": ..}`,
/// where `documentId` is present only for a creation.
pub struct RequestBody {
    pub document_id: Option<String>,
    pub data: ExpensePayload,
}

/// One request to send to the document service.
pub struct DocumentRequest {
    pub method: Method,
    pub url: String,
    /// Header names and values, in the order they are sent.
    pub headers: Vec<(String, String)>,
    pub body: Option<RequestBody>,
}

/// URL of the documents of a collection.
pub open spec fn collection_url(s: AppwriteService, collection_id: Seq<char>) -> Seq<char> {
    s.endpoint@ + "/databases/"@ + s.database_id@ + "/collections/"@ + collection_id
        + "/documents"@
}

/// URL of one document of a collection.
pub open spec fn document_url(
    s: AppwriteService,
    collection_id: Seq<char>,
    document_id: Seq<char>,
) -> Seq<char> {
    collection_url(s, collection_id) + "/"@ + document_id
}

/// The two authentication headers, and the content type where a JSON body is sent.
pub open spec fn headers_ok(s: AppwriteService, h: Seq<(String, String)>, json: bool) -> bool {
    &&& h.len() == if json { 3nat } else { 2nat }
    &&& h[0].0@ == "X-Appwrite-Project"@ && h[0].1@ == s.project_id@
    &&& h[1].0@ == "X-Appwrite-Key"@ && h[1].1@ == s.api_key@
    &&& json ==> h[2].0@ == "Content-Type"@ && h[2].1@ == "application/json"@
}

fn collection_url_of(s: &AppwriteService, collection_id: &str) -> (r: String)
    ensures
        r@ == collection_url(*s, collection_id@),
{
    let r = s.endpoint.clone().concat("/databases/").concat(s.database_id.as_str()).concat(
        "/collections/",
    ).concat(collection_id).concat("/documents");
    r
}

fn document_url_of(s: &AppwriteService, collection_id: &str, document_id: &str) -> (r: String)
    ensures
        r@ == document_url(*s, collection_id@, document_id@),
{
    collection_url_of(s, collection_id).concat("/").concat(document_id)
}

fn headers_of(s: &AppwriteService, json: bool) -> (r: Vec<(String, String)>)
    ensures
        headers_ok(*s, r@, json),
{
    let mut h: Vec<(String, String)> = Vec::new();
    h.push((String::from_str("X-Appwrite-Project"), s.project_id.clone()));
    h.push((String::from_str("X-Appwrite-Key"), s.api_key.clone()));
    if json {
        h.push((String::from_str("Content-Type"), String::from_str("application/json")));
    }
    h
}

impl AppwriteService {
    /// A request that creates a document from `data`, asking the service to
    /// generate its identifier.
    pub fn create_document(&self, collection_id: &str, data: ExpensePayload) -> (r:
        DocumentRequest)
        ensures
            r.method == Method::Post,
            r.url@ == collection_url(*self, collection_id@),
            headers_ok(*self, r.headers@, true),
            r.body matches Some(b) && b.data == data && (b.document_id matches Some(d)
                && d@ == "unique()"@),
    {
        DocumentRequest {
            method: Method::Post,
            url: collection_url_of(self, collection_id),
            headers: headers_of(self, true),
            body: Some(RequestBody { document_id: Some(String::from_str("unique()")), data }),
        }
    }

    /// A request that deletes one document.
    pub fn delete_document(&self, collection_id: &str, document_id: &str) -> (r: DocumentRequest)
        ensures
            r.method == Method::Delete,
            r.url@ == document_url(*self, collection_id@, document_id@),
            headers_ok(*self, r.headers@, false),
            r.body is None,
    {
        DocumentRequest {
            method: Method::Delete,
            url: document_url_of(self, collection_id, document_id),
            headers: headers_of(self, false),
            body: None,
        }
    }

    /// A request that lists the documents of a collection, as one page of
    /// whatever the service returns.
    pub fn list_documents(&self, collection_id: &str) -> (r: DocumentRequest)
        ensures
            r.method == Method::Get,
            r.url@ == collection_url(*self, collection_id@),
            headers_ok(*self, r.headers@, false),
            r.body is None,
    {
        DocumentRequest {
            method: Method::Get,
            url: collection_url_of(self, collection_id),
            headers: headers_of(self, false),
            body: None,
        }
    }

    /// A request that changes the fields of one document to those of `data`.
    pub fn update_document(&self, collection_id: &str, document_id: &str, data: ExpensePayload)
        -> (r: DocumentRequest)
        ensures
            r.method == Method::Patch,
            r.url@ == document_url(*self, collection_id@, document_id@),
            headers_ok(*self, r.headers@, true),
            r.body matches Some(b) && b.data == data && b.document_id is None,
    {
        DocumentRequest {
            method: Method::Patch,
            url: document_url_of(self, collection_id, document_id),
            headers: headers_of(self, true),
            body: Some(RequestBody { document_id: None, data }),
        }
    }
}

/// A JSON value as serde_json holds it.
#[verifier::external_type_specification]
#[verifier::external_body]
pub struct ExJsonValue(serde_json::Value);

/// Whether a text is one complete JSON document, as serde_json reads it.
pub uninterp spec fn is_json_text(s: Seq<char>) -> bool;

/// Relies on serde_json::from_str into a `Value`: it succeeds exactly when the
/// whole text is one JSON document, which depends on the text alone. The error
/// is handed on as its display text.
#[verifier::external_body]
fn parse_json(text: &str) -> (r: Result<serde_json::Value, String>)
    ensures
        r is Ok <==> is_json_text(text@),
{
    match serde_json::from_str::<serde_json::Value>(text) {
        Ok(v) => Ok(v),
        Err(e) => Err(e.to_string()),
    }
}

/// Why a call to the document service did not give a result.
pub enum ServiceError {
    /// The request did not reach the service, or its answer did not come back.
    Transport(String),
    /// The service answered with a status outside 200 to 299.
    Rejected { status: u16, body: String },
    /// A successful answer was not a JSON document.
    Decode(String),
}

/// The diagnostic text of an error: the transport's or decoder's message, or
/// the body of a rejecting answer.
pub open spec fn details_of(e: ServiceError) -> Seq<char> {
    match e {
        ServiceError::Transport(m) => m@,
        ServiceError::Rejected { body, .. } => body@,
        ServiceError::Decode(m) => m@,
    }
}

impl ServiceError {
    /// The diagnostic text of this error.
    pub fn details(&self) -> (r: String)
        ensures
            r@ == details_of(*self),
    {
        match self {
            ServiceError::Transport(m) => m.clone(),
            ServiceError::Rejected { body, .. } => body.clone(),
            ServiceError::Decode(m) => m.clone(),
        }
    }
}

/// Whether an HTTP status is in the success class.
pub open spec fn is_success(status: u16) -> bool {
    200 <= status <= 299
}

/// Sorts a received answer by its status: a success hands the body on, any
/// other status becomes a rejection that carries status and body.
pub fn interpret_response(status: u16, body: String) -> (r: Result<String, ServiceError>)
    ensures
        is_success(status) ==> r == Ok::<String, ServiceError>(body),
        !is_success(status) ==> r == Err::<String, ServiceError>(
            ServiceError::Rejected { status, body },
        ),
{
    if 200 <= status && status <= 299 {
        Ok(body)
    } else {
        Err(ServiceError::Rejected { status, body })
    }
}

/// Reads the JSON document of a successful answer. An earlier error is kept;
/// a body that is not JSON becomes a decoding error.
pub fn decode_document(answer: Result<String, ServiceError>) -> (r: Result<
    serde_json::Value,
    ServiceError,
>)
    ensures
        answer matches Err(e) ==> r == Err::<serde_json::Value, ServiceError>(e),
        answer matches Ok(t) ==> (r is Ok <==> is_json_text(t@)),
        answer matches Ok(t) && !is_json_text(t@) ==> r matches Err(ServiceError::Decode(_)),
{
    match answer {
        Err(e) => Err(e),
        Ok(text) => match parse_json(text.as_str()) {
            Ok(v) => Ok(v),
            Err(m) => Err(ServiceError::Decode(m)),
        },
    }
}

/// Whether an answer to a deletion succeeded; its body is not read.
pub fn confirm_deletion(answer: Result<String, ServiceError>) -> (r: Result<(), ServiceError>)
    ensures
        answer matches Err(e) ==> r == Err::<(), ServiceError>(e),
        answer is Ok ==> r is Ok,
{
    match answer {
        Err(e) => Err(e),
        Ok(_) => Ok(()),
    }
}

} // verus!
