use datalake_web_api::data_store::aws::{credential_or_empty, store_url, table_location, ColumnBatch, Table};
use datalake_web_api::data_store::error::DataStoreError;

fn col(items: &[Option<&str>]) -> Vec<Option<String>> {
    items.iter().map(|o| o.map(|s| s.to_string())).collect()
}

#[test]
fn read_sql_without_condition_selects_ten_rows() {
    assert_eq!(Table::read_sql(None), "select * from t limit 10");
}

#[test]
fn read_sql_appends_default_limit() {
    assert_eq!(
        Table::read_sql(Some("file_type = 'pdf'")),
        "select * from t where file_type = 'pdf' limit 10"
    );
}

#[test]
fn read_sql_keeps_callers_limit() {
    assert_eq!(
        Table::read_sql(Some("file_size > 3 limit 100")),
        "select * from t where file_size > 3 limit 100"
    );
}

#[test]
fn read_sql_limit_is_searched_as_a_substring() {
    // "unlimited" holds "limit", so no default limit is added.
    assert_eq!(
        Table::read_sql(Some("file_name = 'unlimited'")),
        "select * from t where file_name = 'unlimited'"
    );
    // The search is case sensitive.
    assert_eq!(
        Table::read_sql(Some("file_id = 1 LIMIT 2")),
        "select * from t where file_id = 1 LIMIT 2 limit 10"
    );
}

#[test]
fn read_sql_empty_condition() {
    assert_eq!(Table::read_sql(Some("")), "select * from t where  limit 10");
}

#[test]
fn every_select_sql_is_limited() {
    for q in [None, Some(""), Some("a = 1"), Some("limit"), Some("x limit 3")] {
        assert!(Table::read_sql(q).contains("limit"));
    }
}

#[test]
fn read_by_id_sql_quotes_the_name() {
    assert_eq!(
        Table::read_by_id_sql("report.csv"),
        "select * from t where file_name = 'report.csv'"
    );
}

#[test]
fn records_walk_columns_together() {
    let batch = ColumnBatch {
        file_ids: col(&[Some("1"), Some("2"), Some("3")]),
        file_names: col(&[Some("a"), None, Some("c")]),
        file_types: col(&[Some("pdf"), Some("csv")]),
        file_paths: col(&[Some("p/a"), Some("p/b"), Some("p/c")]),
        file_urls: col(&[None, Some("u/b"), Some("u/c")]),
    };
    let rows = Table::records_from_batches(&vec![batch]);
    assert_eq!(rows.len(), 2);
    assert_eq!(rows[0].file_id.as_deref(), Some("1"));
    assert_eq!(rows[0].file_name.as_deref(), Some("a"));
    assert_eq!(rows[0].file_type.as_deref(), Some("pdf"));
    assert_eq!(rows[0].file_size, None);
    assert_eq!(rows[0].file_path.as_deref(), Some("p/a"));
    assert_eq!(rows[0].file_url, None);
    assert_eq!(rows[1].file_id.as_deref(), Some("2"));
    assert_eq!(rows[1].file_name, None);
    assert_eq!(rows[1].file_type.as_deref(), Some("csv"));
    assert_eq!(rows[1].file_url.as_deref(), Some("u/b"));
}

#[test]
fn records_follow_batch_order() {
    let b1 = ColumnBatch {
        file_ids: col(&[Some("1")]),
        file_names: col(&[Some("a")]),
        file_types: col(&[Some("t")]),
        file_paths: col(&[Some("p1")]),
        file_urls: col(&[Some("u1")]),
    };
    let empty = ColumnBatch {
        file_ids: vec![],
        file_names: vec![],
        file_types: vec![],
        file_paths: vec![],
        file_urls: vec![],
    };
    let b2 = ColumnBatch {
        file_ids: col(&[Some("2"), Some("3")]),
        file_names: col(&[Some("b"), Some("c")]),
        file_types: col(&[Some("t"), Some("t")]),
        file_paths: col(&[Some("p2"), Some("p3")]),
        file_urls: col(&[Some("u2"), Some("u3")]),
    };
    let rows = Table::records_from_batches(&vec![b1, empty, b2]);
    let ids: Vec<_> = rows.iter().map(|r| r.file_id.clone().unwrap()).collect();
    assert_eq!(ids, vec!["1", "2", "3"]);
    assert!(Table::records_from_batches(&vec![]).is_empty());
}

#[test]
fn store_url_of_a_bucket() {
    let url = store_url("my-bucket").ok().unwrap();
    assert_eq!(url.as_str(), "s3://my-bucket");
}

#[test]
fn store_url_refused_by_the_parser() {
    match store_url("bad bucket") {
        Err(DataStoreError::UnexpectedError(m)) => assert_eq!(m, "invalid domain character"),
        _ => panic!("expected an unexpected failure"),
    }
}

#[test]
fn table_location_under_bucket() {
    assert_eq!(table_location("lake", "files/index"), "s3://lake/files/index");
}

#[test]
fn missing_credential_becomes_empty() {
    assert_eq!(credential_or_empty(None), "");
    assert_eq!(credential_or_empty(Some("AKIA".to_string())), "AKIA");
}
