use kdbg::decode::{decode_pod_list, record_from_parts};
use kdbg::record::QueryError;

#[test]
fn full_listing_decodes() {
    let body = br#"{
        "items": [
            {
                "metadata": {
                    "name": "web-1",
                    "namespace": "prod",
                    "creationTimestamp": "2021-01-01T00:00:00Z"
                },
                "status": {
                    "phase": "Running",
                    "containerStatuses": [{"restartCount": 3}]
                }
            }
        ]
    }"#;
    let records = decode_pod_list(body).unwrap_or_else(|_| panic!("expected a decode"));
    assert_eq!(records.len(), 1);
    assert_eq!(records[0].name, "web-1");
    assert_eq!(records[0].namespace, "prod");
    assert_eq!(records[0].phase, "Running");
    assert_eq!(records[0].restart_count, 3);
    assert_eq!(records[0].created_at, Some(1609459200));
}

#[test]
fn timestamp_with_offset_decodes_to_utc_epoch() {
    let body = br#"{"items":[{"metadata":{"name":"a","namespace":"b",
        "creationTimestamp":"2021-01-01T02:00:00+02:00"},"status":{"phase":"Running"}}]}"#;
    let records = decode_pod_list(body).unwrap_or_else(|_| panic!("expected a decode"));
    assert_eq!(records[0].created_at, Some(1609459200));
}

#[test]
fn missing_restart_count_defaults_to_zero() {
    let body = br#"{"items":[{"metadata":{"name":"web-1","namespace":"prod"},
        "status":{"phase":"Running","containerStatuses":[{}]}}]}"#;
    let records = decode_pod_list(body).unwrap_or_else(|_| panic!("expected a decode"));
    assert_eq!(records[0].restart_count, 0);

    let body = br#"{"items":[{"metadata":{"name":"web-1","namespace":"prod"},
        "status":{"phase":"Running","containerStatuses":[]}}]}"#;
    let records = decode_pod_list(body).unwrap_or_else(|_| panic!("expected a decode"));
    assert_eq!(records[0].restart_count, 0);
}

#[test]
fn missing_timestamp_yields_unknown_age_sentinel() {
    let body = br#"{"items":[{"metadata":{"name":"web-1","namespace":"prod"},
        "status":{"phase":"Running"}}]}"#;
    let records = decode_pod_list(body).unwrap_or_else(|_| panic!("expected a decode"));
    assert_eq!(records[0].created_at, None);
}

#[test]
fn unparsable_timestamp_yields_unknown_age_sentinel() {
    let body = br#"{"items":[{"metadata":{"name":"web-1","namespace":"prod",
        "creationTimestamp":"yesterday"},"status":{"phase":"Running"}}]}"#;
    let records = decode_pod_list(body).unwrap_or_else(|_| panic!("expected a decode"));
    assert_eq!(records[0].created_at, None);
}

#[test]
fn missing_strings_take_documented_defaults() {
    let body = br#"{"items":[{}]}"#;
    let records = decode_pod_list(body).unwrap_or_else(|_| panic!("expected a decode"));
    assert_eq!(records.len(), 1);
    assert_eq!(records[0].name, "unknown");
    assert_eq!(records[0].namespace, "unknown");
    assert_eq!(records[0].phase, "Unknown");
    assert_eq!(records[0].restart_count, 0);
    assert_eq!(records[0].created_at, None);
}

#[test]
fn invalid_json_is_a_decode_failure() {
    let body = b"not json at all {";
    match decode_pod_list(body) {
        Err(e) => assert_eq!(e, QueryError::DecodeFailure),
        Ok(_) => panic!("expected a decode failure"),
    }
}

#[test]
fn listing_without_items_is_empty() {
    let records = decode_pod_list(br#"{"kind":"List"}"#)
        .unwrap_or_else(|_| panic!("expected a decode"));
    assert_eq!(records.len(), 0);
    let records = decode_pod_list(br#"{"items": 7}"#)
        .unwrap_or_else(|_| panic!("expected a decode"));
    assert_eq!(records.len(), 0);
}

#[test]
fn parts_assembly_fills_defaults() {
    let r = record_from_parts(None, None, None, None, None);
    assert_eq!(r.name, "unknown");
    assert_eq!(r.namespace, "unknown");
    assert_eq!(r.phase, "Unknown");
    assert_eq!(r.restart_count, 0);
    assert_eq!(r.created_at, None);

    let r = record_from_parts(
        Some("web-1".to_string()),
        Some("prod".to_string()),
        Some("Pending".to_string()),
        Some(5),
        Some(1609459200),
    );
    assert_eq!(r.name, "web-1");
    assert_eq!(r.namespace, "prod");
    assert_eq!(r.phase, "Pending");
    assert_eq!(r.restart_count, 5);
    assert_eq!(r.created_at, Some(1609459200));
}
