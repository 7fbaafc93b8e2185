use datalake_web_api::utils::aws::{CLIENT_MAX_ATTEMPTS, CLIENT_TIMEOUT_SECS};
use datalake_web_api::utils::constants::env::{
    BUCKET_DOWNLOAD_ENV_VAR, BUCKET_SELECT_ENV_VAR, PREFIX_SELECT_ENV_VAR,
};
use datalake_web_api::utils::constants::{check_secret, prod, Secret, SecretError, REGION, TABLE_NAME};
use datalake_web_api::utils::datafusion::is_empty;
use datalake_web_api::utils::text::{debug_option_str, option_debug_from, push_decimal, str_contains};
use datalake_web_api::utils::utils::{zip_entry_name, zip_entry_names};

#[test]
fn decimal_rendering() {
    for n in [0u64, 7, 10, 99, 100, 12345, u64::MAX] {
        let mut s = String::from("#");
        push_decimal(&mut s, n);
        assert_eq!(s, format!("#{}", n));
    }
}

#[test]
fn substring_search() {
    assert!(str_contains("a limit 3", "limit"));
    assert!(str_contains("anything", ""));
    assert!(!str_contains("lim", "limit"));
    assert!(!str_contains("LIMIT", "limit"));
    assert!(str_contains("ünïcödé limit", "limit"));
    assert!(!str_contains("", "a"));
}

#[test]
fn option_debug_forms() {
    assert_eq!(debug_option_str(None), "None");
    assert_eq!(debug_option_str(Some("abc")), "Some(\"abc\")");
    assert_eq!(debug_option_str(Some("a\\b\"c\t")), format!("{:?}", Some("a\\b\"c\t")));
}

#[test]
fn option_debug_wraps_shown_string() {
    assert_eq!(option_debug_from(None), "None");
    assert_eq!(option_debug_from(Some("\"x\"")), "Some(\"x\")");
}

#[test]
fn zip_entries_are_numbered_from_one() {
    assert_eq!(zip_entry_name(0), "file-1");
    assert_eq!(zip_entry_name(9), "file-10");
    assert_eq!(zip_entry_names(3), vec!["file-1", "file-2", "file-3"]);
    assert!(zip_entry_names(0).is_empty());
}

#[test]
fn zip_entry_names_are_distinct() {
    let names = zip_entry_names(120);
    let mut sorted = names.clone();
    sorted.sort();
    sorted.dedup();
    assert_eq!(sorted.len(), names.len());
}

#[test]
fn emptiness_of_batches() {
    assert!(is_empty(&vec![]));
    assert!(is_empty(&vec![0, 0]));
    assert!(!is_empty(&vec![0, 3, 0]));
}

#[test]
fn secrets_must_be_set_and_non_empty() {
    assert_eq!(check_secret(None), Err(SecretError::NotSet));
    assert_eq!(check_secret(Some(String::new())), Err(SecretError::Empty));
    assert_eq!(check_secret(Some("bucket".to_string())), Ok("bucket".to_string()));
}

#[test]
fn secret_names_and_messages() {
    assert_eq!(Secret::BucketSelect.env_var(), "BUCKET_SELECT_SECRET");
    assert_eq!(Secret::PrefixSelect.env_var(), "PREFIX_SELECT_SECRET");
    assert_eq!(Secret::BucketDownload.env_var(), "BUCKET_DOWNLOAD_SECRET");
    assert_eq!(BUCKET_SELECT_ENV_VAR, "BUCKET_SELECT_SECRET");
    assert_eq!(PREFIX_SELECT_ENV_VAR, "PREFIX_SELECT_SECRET");
    assert_eq!(BUCKET_DOWNLOAD_ENV_VAR, "BUCKET_DOWNLOAD_SECRET");
    assert_eq!(Secret::BucketSelect.failure_message(SecretError::NotSet), "BUCKET_SELECT must be set.");
    assert_eq!(
        Secret::PrefixSelect.failure_message(SecretError::Empty),
        "PREFIX_SELECT_ENV_VAR must not be empty."
    );
    assert_eq!(
        Secret::BucketDownload.failure_message(SecretError::NotSet),
        "BUCKET_DOWNLOAD_ENV_VAR must be set."
    );
}

#[test]
fn deployment_constants() {
    assert_eq!(REGION, "eu-central-1");
    assert_eq!(TABLE_NAME, "t");
    assert_eq!(prod::APP_ADDRESS, "0.0.0.0:80");
    assert_eq!(datalake_web_api::utils::constants::test::APP_ADDRESS, "127.0.0.1:8080");
    assert_eq!(CLIENT_TIMEOUT_SECS, 300);
    assert_eq!(CLIENT_MAX_ATTEMPTS, 10);
}
