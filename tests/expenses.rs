use expense_tracker::client::{
    confirm_deletion, decode_document, interpret_response, Method, ServiceError,
};
use expense_tracker::config::{expenses_collection_id, AppwriteService, ConfigError};
use expense_tracker::handlers::{
    create_expense, delete_expense, get_expenses, update_expense, Reply,
};
use expense_tracker::models::{Expense, User};

fn service() -> AppwriteService {
    AppwriteService::new(
        Some("https://cloud.example.io/v1".to_string()),
        Some("proj".to_string()),
        Some("key".to_string()),
        Some("db".to_string()),
    )
    .ok()
    .unwrap()
}

fn lunch(id: Option<&str>) -> Expense {
    Expense {
        id: id.map(|s| s.to_string()),
        title: "Lunch".to_string(),
        amount_bits: 12.5f64.to_bits(),
        paid_by: "alice".to_string(),
        split_among: vec!["alice".to_string(), "bob".to_string()],
    }
}

fn missing_name(r: Result<AppwriteService, ConfigError>) -> String {
    match r {
        Err(ConfigError::Missing(n)) => n,
        Ok(_) => panic!("expected a missing variable"),
    }
}

fn headers(h: &[(String, String)]) -> Vec<(&str, &str)> {
    h.iter().map(|(a, b)| (a.as_str(), b.as_str())).collect()
}

fn failure_of(r: Reply) -> (String, String) {
    match r {
        Reply::Failure { error, details } => (error, details),
        _ => panic!("expected a failure envelope"),
    }
}

fn json(text: &str) -> serde_json::Value {
    serde_json::from_str(text).unwrap()
}

#[test]
fn config_with_all_variables() {
    let s = service();
    assert_eq!(s.endpoint, "https://cloud.example.io/v1");
    assert_eq!(s.project_id, "proj");
    assert_eq!(s.api_key, "key");
    assert_eq!(s.database_id, "db");
}

#[test]
fn config_names_first_missing_variable() {
    let v = |s: &str| Some(s.to_string());
    assert_eq!(missing_name(AppwriteService::new(None, None, None, None)), "APPWRITE_ENDPOINT");
    assert_eq!(missing_name(AppwriteService::new(v("e"), None, v("k"), v("d"))), "APPWRITE_PROJECT_ID");
    assert_eq!(missing_name(AppwriteService::new(v("e"), v("p"), None, v("d"))), "APPWRITE_API_KEY");
    assert_eq!(missing_name(AppwriteService::new(v("e"), v("p"), v("k"), None)), "APPWRITE_DATABASE_ID");
}

#[test]
fn collection_id_defaults_to_expenses() {
    assert_eq!(expenses_collection_id(None), "expenses");
    assert_eq!(expenses_collection_id(Some("costs".to_string())), "costs");
}

#[test]
fn payload_drops_supplied_identifier() {
    let p = lunch(Some("abc123")).into_payload();
    let q = lunch(None).into_payload();
    assert_eq!(p.title, "Lunch");
    assert_eq!(f64::from_bits(p.amount_bits), 12.5);
    assert_eq!(p.paid_by, "alice");
    assert_eq!(p.split_among, vec!["alice".to_string(), "bob".to_string()]);
    assert_eq!((p.title, p.amount_bits, p.paid_by, p.split_among), (q.title, q.amount_bits, q.paid_by, q.split_among));
}

#[test]
fn create_request_asks_for_generated_identifier() {
    let r = service().create_document("expenses", lunch(Some("abc123")).into_payload());
    assert_eq!(r.method, Method::Post);
    assert_eq!(r.url, "https://cloud.example.io/v1/databases/db/collections/expenses/documents");
    assert_eq!(
        headers(&r.headers),
        vec![("X-Appwrite-Project", "proj"), ("X-Appwrite-Key", "key"), ("Content-Type", "application/json")]
    );
    let body = r.body.unwrap();
    assert_eq!(body.document_id.as_deref(), Some("unique()"));
    assert_eq!(body.data.title, "Lunch");
}

#[test]
fn list_request_has_no_body() {
    let r = service().list_documents("expenses");
    assert_eq!(r.method, Method::Get);
    assert_eq!(r.url, "https://cloud.example.io/v1/databases/db/collections/expenses/documents");
    assert_eq!(headers(&r.headers), vec![("X-Appwrite-Project", "proj"), ("X-Appwrite-Key", "key")]);
    assert!(r.body.is_none());
}

#[test]
fn update_request_addresses_document() {
    let r = service().update_document("expenses", "abc123", lunch(None).into_payload());
    assert_eq!(r.method, Method::Patch);
    assert_eq!(r.url, "https://cloud.example.io/v1/databases/db/collections/expenses/documents/abc123");
    assert_eq!(r.headers.len(), 3);
    let body = r.body.unwrap();
    assert!(body.document_id.is_none());
    assert_eq!(body.data.paid_by, "alice");
}

#[test]
fn delete_request_addresses_document() {
    let r = service().delete_document("expenses", "abc123");
    assert_eq!(r.method, Method::Delete);
    assert_eq!(r.url, "https://cloud.example.io/v1/databases/db/collections/expenses/documents/abc123");
    assert_eq!(r.headers.len(), 2);
    assert!(r.body.is_none());
}

#[test]
fn status_class_decides_success() {
    for s in [200u16, 201, 204, 299] {
        assert_eq!(interpret_response(s, "ok".to_string()).ok(), Some("ok".to_string()));
    }
    for s in [199u16, 300, 404, 500] {
        match interpret_response(s, "no".to_string()) {
            Err(ServiceError::Rejected { status, body }) => {
                assert_eq!(status, s);
                assert_eq!(body, "no");
            }
            _ => panic!("expected a rejection"),
        }
    }
}

#[test]
fn decode_reads_json_and_rejects_other_text() {
    let v = decode_document(Ok("{\"a\":1}".to_string())).ok().unwrap();
    assert_eq!(v, json("{\"a\":1}"));
    assert!(matches!(decode_document(Ok("not json".to_string())), Err(ServiceError::Decode(_))));
    assert!(matches!(decode_document(Ok("{} {}".to_string())), Err(ServiceError::Decode(_))));
    let kept = decode_document(Err(ServiceError::Transport("refused".to_string())));
    assert_eq!(kept.err().unwrap().details(), "refused");
}

#[test]
fn create_relays_service_document_verbatim() {
    let body = "{\"$id\":\"abc123\",\"title\":\"Lunch\",\"amount\":12.5,\"paid_by\":\"alice\",\"split_among\":[\"alice\",\"bob\"]}";
    let r = create_expense(decode_document(interpret_response(201, body.to_string())));
    match r {
        Reply::Document(v) => assert_eq!(v, json(body)),
        _ => panic!("expected the document"),
    }
}

#[test]
fn delete_failure_gives_error_envelope() {
    let answer = interpret_response(404, "{\"message\":\"Document not found\"}".to_string());
    let (error, details) = failure_of(delete_expense("abc123".to_string(), confirm_deletion(answer)));
    assert_eq!(error, "Failed to delete expense");
    assert_eq!(details, "{\"message\":\"Document not found\"}");
}

#[test]
fn delete_success_echoes_identifier() {
    match delete_expense("abc123".to_string(), confirm_deletion(interpret_response(204, String::new()))) {
        Reply::Deleted { status, id } => {
            assert_eq!(status, "deleted");
            assert_eq!(id, "abc123");
        }
        _ => panic!("expected the deletion envelope"),
    }
}

#[test]
fn every_failure_has_a_message() {
    let e = || ServiceError::Transport("connection refused".to_string());
    assert_eq!(failure_of(create_expense(Err(e()))), ("Failed to save expense".to_string(), "connection refused".to_string()));
    assert_eq!(failure_of(get_expenses(Err(e()))).0, "Failed to fetch expenses");
    assert_eq!(failure_of(update_expense(Err(e()))).0, "Failed to update expense");
    let (error, details) = failure_of(update_expense(Err(ServiceError::Decode("bad".to_string()))));
    assert!(!error.is_empty());
    assert_eq!(details, "bad");
}

#[test]
fn listing_and_update_relay_documents() {
    let listing = json("{\"total\":0,\"documents\":[]}");
    assert!(matches!(get_expenses(Ok(listing.clone())), Reply::Document(v) if v == listing));
    assert!(matches!(update_expense(Ok(listing.clone())), Reply::Document(v) if v == listing));
}

#[test]
fn user_record_holds_fields() {
    let u = User { id: "u1".to_string(), username: "alice".to_string(), email: "a@example.com".to_string() };
    assert_eq!(u.username, "alice");
}
