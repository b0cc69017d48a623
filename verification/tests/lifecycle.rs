//! End-to-end tests of the file lifecycle: upload, consumption accounting,
//! and self-destruction at the download limit.

use bitbeam::data::ApiError;
use bitbeam::service::build_download_url;
use bitbeam::service::effective_download_limit;
use bitbeam::store::ServiceState;

/// A state with one registered user, returning the state and the user's key.
fn state_with_user() -> (ServiceState, String) {
    let mut s = ServiceState::new();
    let key = "key-alice".to_string();
    let r = s.register(
        "alice".to_string(),
        "password".to_string(),
        key.clone(),
        true,
    );
    assert!(r.is_ok());
    (s, key)
}

fn upload(
    s: &mut ServiceState,
    key: &str,
    body: &[u8],
    content_type: Option<&str>,
    limit: Option<i32>,
    id: &str,
) -> bitbeam::data::File {
    let r = s.accept(
        Some(key.to_string()),
        None,
        content_type.map(|c| c.to_string()),
        limit,
        body.to_vec(),
        id.to_string(),
        1700000000,
        false,
        &"localhost:3000".to_string(),
    );
    r.ok().expect("upload should succeed")
}

#[test]
fn upload_missing_key_fails_before_any_write() {
    let (mut s, _key) = state_with_user();
    let r = s.accept(
        None,
        None,
        None,
        None,
        b"data".to_vec(),
        "id-a".to_string(),
        1700000000,
        false,
        &"localhost:3000".to_string(),
    );
    assert_eq!(r.err(), Some(ApiError::Validation));
    // No orphan blob and no record may exist after the rejected upload.
    assert_eq!(s.files.len(), 0);
    assert_eq!(s.blobs.len(), 0);
}

#[test]
fn upload_unknown_key_fails_authorization() {
    let (mut s, _key) = state_with_user();
    let r = s.accept(
        Some("no-such-key".to_string()),
        None,
        None,
        None,
        b"data".to_vec(),
        "id-a".to_string(),
        1700000000,
        false,
        &"localhost:3000".to_string(),
    );
    assert_eq!(r.err(), Some(ApiError::Authorization));
    assert_eq!(s.files.len(), 0);
    assert_eq!(s.blobs.len(), 0);
}

#[test]
fn upload_fills_record_with_defaults() {
    let (mut s, key) = state_with_user();
    let f = upload(&mut s, &key, b"abc", None, None, "id-a");
    assert_eq!(f.id, "id-a");
    assert_eq!(f.file_name, "unknown");
    assert_eq!(f.content_type, "unknown");
    assert_eq!(f.upload_time, 1700000000);
    assert_eq!(f.download_limit, 1);
    assert_eq!(f.download_count, 0);
    assert_eq!(f.file_size, 3);
    assert_eq!(f.download_url, "http://localhost:3000/download/id-a");
    assert_eq!(f.owner, "alice");
    assert_eq!(s.files.len(), 1);
    assert_eq!(s.blobs.len(), 1);
}

#[test]
fn upload_tls_builds_https_url() {
    let url = build_download_url(true, &"host:443".to_string(), &"id-z".to_string());
    assert_eq!(url, "https://host:443/download/id-z");
}

#[test]
fn upload_duplicate_identifier_is_rejected_whole() {
    let (mut s, key) = state_with_user();
    let _ = upload(&mut s, &key, b"one", None, None, "id-a");
    let r = s.accept(
        Some(key.clone()),
        None,
        None,
        None,
        b"two".to_vec(),
        "id-a".to_string(),
        1700000001,
        false,
        &"localhost:3000".to_string(),
    );
    assert_eq!(r.err(), Some(ApiError::Persistence));
    // The first upload is intact; the failed one left nothing behind.
    assert_eq!(s.files.len(), 1);
    assert_eq!(s.blobs.len(), 1);
    assert_eq!(s.blobs[0].bytes, b"one".to_vec());
}

#[test]
fn upload_empty_body_roundtrips() {
    let (mut s, key) = state_with_user();
    let f = upload(&mut s, &key, b"", None, None, "id-a");
    assert_eq!(f.file_size, 0);
    let d = s.consume(&"id-a".to_string()).ok().expect("consume");
    assert_eq!(d.bytes.len(), 0);
}

#[test]
fn round_trip_returns_same_bytes_and_content_type() {
    let (mut s, key) = state_with_user();
    let body = b"some binary \x00\xff payload";
    let _ = upload(&mut s, &key, body, Some("application/octet-stream"), Some(5), "id-a");
    let d = s.consume(&"id-a".to_string()).ok().expect("consume");
    assert_eq!(d.bytes, body.to_vec());
    assert_eq!(d.content_type, "application/octet-stream");
    assert_eq!(d.file_name, "unknown");
    assert_eq!(d.file_size, body.len() as i64);
}

#[test]
fn scenario_hello_two_downloads_then_gone() {
    let (mut s, key) = state_with_user();
    let f = upload(&mut s, &key, b"hello", Some("text/plain"), Some(2), "id-h");
    assert_eq!(f.download_count, 0);
    assert_eq!(f.file_size, 5);

    let d1 = s.consume(&"id-h".to_string()).ok().expect("first consume");
    assert_eq!(d1.bytes, b"hello".to_vec());
    assert_eq!(d1.content_type, "text/plain");
    // The file still exists, with one download accounted.
    assert_eq!(s.all_files().len(), 1);
    assert_eq!(s.all_files()[0].download_count, 1);

    let d2 = s.consume(&"id-h".to_string()).ok().expect("second consume");
    assert_eq!(d2.bytes, b"hello".to_vec());
    // The record and the blob are both destroyed.
    assert_eq!(s.files.len(), 0);
    assert_eq!(s.blobs.len(), 0);

    let r3 = s.consume(&"id-h".to_string());
    assert_eq!(r3.err(), Some(ApiError::NotFound));
}

#[test]
fn limit_enforcement_exactly_n_downloads() {
    let (mut s, key) = state_with_user();
    let _ = upload(&mut s, &key, b"payload", None, Some(3), "id-n");
    for round in 0..3 {
        let d = s.consume(&"id-n".to_string());
        assert!(d.is_ok(), "download {} should succeed", round + 1);
        assert_eq!(d.ok().unwrap().bytes, b"payload".to_vec());
    }
    let after = s.consume(&"id-n".to_string());
    assert_eq!(after.err(), Some(ApiError::NotFound));
    assert_eq!(s.files.len(), 0);
    assert_eq!(s.blobs.len(), 0);
}

#[test]
fn single_use_file_serves_exactly_once() {
    let (mut s, key) = state_with_user();
    let _ = upload(&mut s, &key, b"once", None, Some(1), "id-1");
    let first = s.consume(&"id-1".to_string());
    assert!(first.is_ok());
    assert_eq!(first.ok().unwrap().bytes, b"once".to_vec());
    let second = s.consume(&"id-1".to_string());
    assert_eq!(second.err(), Some(ApiError::NotFound));
}

#[test]
fn counter_grows_by_one_and_stays_within_limit() {
    let (mut s, key) = state_with_user();
    let _ = upload(&mut s, &key, b"x", None, Some(3), "id-c");
    let mut last = 0;
    for _ in 0..2 {
        let _ = s.consume(&"id-c".to_string()).ok().expect("consume");
        let observed = s.all_files()[0].download_count;
        assert_eq!(observed, last + 1);
        assert!(observed <= s.all_files()[0].download_limit);
        last = observed;
    }
}

#[test]
fn nonpositive_or_absent_limit_defaults_to_one() {
    assert_eq!(effective_download_limit(None), 1);
    assert_eq!(effective_download_limit(Some(0)), 1);
    assert_eq!(effective_download_limit(Some(-7)), 1);
    assert_eq!(effective_download_limit(Some(5)), 5);
}

#[test]
fn upload_with_generated_identifier_roundtrips() {
    let (mut s, key) = state_with_user();
    let r = s.upload(
        Some(key),
        None,
        Some("text/plain".to_string()),
        Some(2),
        b"fresh".to_vec(),
        true,
        &"example.org:443".to_string(),
    );
    let f = r.ok().expect("upload should succeed");
    assert_eq!(f.id.len(), 36);
    assert_eq!(
        f.download_url,
        format!("https://example.org:443/download/{}", f.id)
    );
    assert_eq!(f.owner, "alice");
    let d = s.consume(&f.id).ok().expect("consume");
    assert_eq!(d.bytes, b"fresh".to_vec());
    assert_eq!(d.content_type, "text/plain");
}

#[test]
fn upload_without_key_is_validation_error() {
    let (mut s, _key) = state_with_user();
    let r = s.upload(
        None,
        None,
        None,
        None,
        b"data".to_vec(),
        false,
        &"localhost:3000".to_string(),
    );
    assert_eq!(r.err(), Some(ApiError::Validation));
    assert_eq!(s.files.len(), 0);
    assert_eq!(s.blobs.len(), 0);
}

#[test]
fn consume_on_empty_state_is_not_found() {
    let mut s = ServiceState::new();
    let r = s.consume(&"missing".to_string());
    assert_eq!(r.err(), Some(ApiError::NotFound));
}

#[test]
fn all_files_lists_every_record() {
    let (mut s, key) = state_with_user();
    let _ = upload(&mut s, &key, b"a", None, Some(2), "id-a");
    let _ = upload(&mut s, &key, b"bb", None, Some(2), "id-b");
    let listed = s.all_files();
    assert_eq!(listed.len(), 2);
    assert_eq!(listed[0].id, "id-a");
    assert_eq!(listed[1].id, "id-b");
    assert_eq!(listed[1].file_size, 2);
}

#[test]
fn consumption_of_one_file_leaves_others_alone() {
    let (mut s, key) = state_with_user();
    let _ = upload(&mut s, &key, b"first", None, Some(1), "id-a");
    let _ = upload(&mut s, &key, b"second", None, Some(4), "id-b");
    let _ = s.consume(&"id-a".to_string()).ok().expect("consume");
    assert_eq!(s.files.len(), 1);
    assert_eq!(s.files[0].id, "id-b");
    assert_eq!(s.files[0].download_count, 0);
    assert_eq!(s.blobs[0].bytes, b"second".to_vec());
}
