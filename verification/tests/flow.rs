use datalake_web_api::data_store::aws::ColumnBatch;
use datalake_web_api::data_store::error::DataStoreError;
use datalake_web_api::data_store::flow::{Action, Event, Stage};

fn batch(ids: &[&str]) -> ColumnBatch {
    let c: Vec<Option<String>> = ids.iter().map(|s| Some(s.to_string())).collect();
    ColumnBatch {
        file_ids: c.clone(),
        file_names: c.clone(),
        file_types: c.clone(),
        file_paths: c.clone(),
        file_urls: c,
    }
}

#[test]
fn select_runs_frame_probe_records() {
    let (stage, sql) = Stage::start_select(Some("file_id = '1'"));
    assert_eq!(sql, "select * from t where file_id = '1' limit 10");
    let (stage, action) = stage.step(Event::FrameReady(Ok(())));
    assert!(matches!(action, Action::CheckEmpty));
    let (stage, action) = stage.step(Event::Probed(Ok(false)));
    assert!(matches!(action, Action::ReadRecords));
    let (stage, action) = stage.step(Event::RecordsRead(Ok(vec![batch(&["1", "2"])])));
    assert!(matches!(stage, Stage::Finished));
    match action {
        Action::ReplyRecords(rows) => {
            assert_eq!(rows.len(), 2);
            assert_eq!(rows[1].file_id.as_deref(), Some("2"));
        }
        _ => panic!("expected rows"),
    }
}

#[test]
fn select_by_id_sql_and_stage() {
    let (stage, sql) = Stage::start_select_by_id("a.pdf");
    assert_eq!(sql, "select * from t where file_name = 'a.pdf'");
    assert!(matches!(stage, Stage::AwaitingFrame { download: false }));
}

#[test]
fn empty_result_is_reported() {
    let (stage, _) = Stage::start_select(None);
    let (stage, _) = stage.step(Event::FrameReady(Ok(())));
    let (stage, action) = stage.step(Event::Probed(Ok(true)));
    assert!(matches!(stage, Stage::Finished));
    assert!(matches!(action, Action::Fail(DataStoreError::QueryResultIsEmpty)));
}

#[test]
fn failures_end_as_unexpected_with_their_text() {
    let (stage, _) = Stage::start_download(None);
    let (stage, action) = stage.step(Event::FrameReady(Err("no such table".to_string())));
    assert!(matches!(stage, Stage::Finished));
    match action {
        Action::Fail(DataStoreError::UnexpectedError(m)) => assert_eq!(m, "no such table"),
        _ => panic!("expected a failure"),
    }
    let (stage, _) = Stage::start_select(None);
    let (stage, _) = stage.step(Event::FrameReady(Ok(())));
    let (_, action) = stage.step(Event::Probed(Err("probe".to_string())));
    assert!(matches!(action, Action::Fail(DataStoreError::UnexpectedError(m)) if m == "probe"));
}

#[test]
fn download_answers_files_in_path_order() {
    let (stage, sql) = Stage::start_download(Some("file_type = 'csv'"));
    assert_eq!(sql, "select * from t where file_type = 'csv' limit 10");
    let (stage, _) = stage.step(Event::FrameReady(Ok(())));
    let (stage, action) = stage.step(Event::Probed(Ok(false)));
    assert!(matches!(action, Action::ReadPaths));
    let column = vec![Some("a/1.csv".to_string()), Some("b/2.csv".to_string())];
    let (stage, action) = stage.step(Event::PathsRead(Ok(column)));
    match action {
        Action::FetchFiles(paths) => assert_eq!(paths, vec!["a/1.csv", "b/2.csv"]),
        _ => panic!("expected the paths"),
    }
    let (stage, action) = stage.step(Event::FileRead(Ok(vec![1, 2])));
    assert!(matches!(action, Action::AwaitNextFile));
    let (stage, action) = stage.step(Event::FileRead(Ok(vec![3])));
    assert!(matches!(stage, Stage::Finished));
    match action {
        Action::ReplyFiles(data) => assert_eq!(data, vec![vec![1, 2], vec![3]]),
        _ => panic!("expected the files"),
    }
}

#[test]
fn download_with_no_path_answers_no_file() {
    let (stage, _) = Stage::start_download(None);
    let (stage, _) = stage.step(Event::FrameReady(Ok(())));
    let (stage, _) = stage.step(Event::Probed(Ok(false)));
    let (stage, action) = stage.step(Event::PathsRead(Ok(vec![])));
    assert!(matches!(stage, Stage::Finished));
    assert!(matches!(action, Action::ReplyFiles(d) if d.is_empty()));
}

#[test]
fn failed_fetch_ends_download() {
    let (stage, _) = Stage::start_download(None);
    let (stage, _) = stage.step(Event::FrameReady(Ok(())));
    let (stage, _) = stage.step(Event::Probed(Ok(false)));
    let (stage, _) = stage.step(Event::PathsRead(Ok(vec![Some("x".to_string()), Some("y".to_string())])));
    let (stage, _) = stage.step(Event::FileRead(Ok(vec![9])));
    let (stage, action) = stage.step(Event::FileRead(Err("NoSuchKey".to_string())));
    assert!(matches!(stage, Stage::Finished));
    assert!(matches!(action, Action::Fail(DataStoreError::UnexpectedError(m)) if m == "NoSuchKey"));
}
