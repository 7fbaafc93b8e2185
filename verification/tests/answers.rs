use datalake_web_api::data_store::aws::Table;
use datalake_web_api::data_store::error::DataStoreError;
use datalake_web_api::error::ApiError;
use datalake_web_api::routes::download::post_download;
use datalake_web_api::routes::select::{post_select, SelectRequest};

#[test]
fn api_error_status_and_body() {
    let (status, body) = ApiError::IncorrectQuery.into_response();
    assert_eq!((status, body.error.as_str()), (400, "Incorrect query"));
    let (status, body) = ApiError::QueryResultIsEmpty.into_response();
    assert_eq!((status, body.error.as_str()), (404, "Not found"));
    let (status, body) = ApiError::UnexpectedError("disk on fire".to_string()).into_response();
    assert_eq!((status, body.error.as_str()), (500, "Unexpected error"));
}

#[test]
fn error_descriptions() {
    assert_eq!(ApiError::QueryResultIsEmpty.description(), "Query result is empty");
    assert_eq!(DataStoreError::IncorrectQuery.description(), "Incorrect query");
    assert_eq!(DataStoreError::QueryResultIsEmpty.description(), "Query result is empty");
    assert_eq!(DataStoreError::unexpected("x").description(), "Unexpected error");
}

#[test]
fn store_failures_keep_their_kind() {
    assert!(matches!(ApiError::from_data_store(DataStoreError::IncorrectQuery), ApiError::IncorrectQuery));
    assert!(matches!(
        ApiError::from_data_store(DataStoreError::QueryResultIsEmpty),
        ApiError::QueryResultIsEmpty
    ));
    assert!(matches!(
        ApiError::from_data_store(DataStoreError::unexpected("boom")),
        ApiError::UnexpectedError(m) if m == "boom"
    ));
}

#[test]
fn empty_download_is_not_found() {
    let answer = post_download(Err(DataStoreError::QueryResultIsEmpty));
    let err = answer.err().unwrap();
    assert_eq!(err.status(), 404);
    assert_eq!(err.error_response().error, "Not found");
}

#[test]
fn download_files_pass_through() {
    let answer = post_download(Ok(vec![vec![1], vec![2, 3]]));
    assert_eq!(answer.ok().unwrap(), (200, vec![vec![1], vec![2, 3]]));
}

#[test]
fn select_success_message() {
    let rows = vec![Table {
        file_id: Some("1".to_string()),
        file_name: None,
        file_type: None,
        file_size: None,
        file_path: None,
        file_url: None,
    }];
    let (status, reply) = post_select(Some("x = 1"), Ok(rows));
    assert_eq!(status, 200);
    let reply = reply.ok().unwrap();
    assert_eq!(reply.message, "Table selected");
    assert_eq!(reply.content.unwrap().len(), 1);
}

#[test]
fn select_failure_message_shows_query() {
    let (status, reply) = post_select(Some("x = 1"), Err(DataStoreError::QueryResultIsEmpty));
    assert_eq!(status, 200);
    let reply = reply.err().unwrap();
    assert_eq!(reply.message, "Failed selecting table with query: Some(\"x = 1\")");
    assert!(reply.content.is_none());
    let reply = post_select(None, Err(DataStoreError::unexpected("e"))).1.err().unwrap();
    assert_eq!(reply.message, "Failed selecting table with query: None");
}

#[test]
fn select_failure_message_escapes_like_debug() {
    let q = "name = 'a\"b'\n";
    let reply = post_select(Some(q), Err(DataStoreError::IncorrectQuery)).1.err().unwrap();
    assert_eq!(reply.message, format!("Failed selecting table with query: {:?}", Some(q)));
}

#[test]
fn select_request_condition() {
    let r = SelectRequest { query: Some("a".to_string()) };
    assert_eq!(r.condition(), Some("a"));
    let r = SelectRequest { query: None };
    assert_eq!(r.condition(), None);
}
