use kdbg::record::{PodRecord, ResolveError};
use kdbg::resolve::resolve;

fn record(name: &str, namespace: &str) -> PodRecord {
    PodRecord {
        name: name.to_string(),
        namespace: namespace.to_string(),
        phase: "Running".to_string(),
        restart_count: 0,
        created_at: None,
    }
}

#[test]
fn single_match_resolves() {
    let records = vec![record("web-1", "prod")];
    let target = resolve("web-1", &records).unwrap_or_else(|_| panic!("expected a resolution"));
    assert_eq!(target.name, "web-1");
    assert_eq!(target.namespace, "prod");
}

#[test]
fn substring_match_resolves() {
    let records = vec![
        record("api-server-abc", "prod"),
        record("web-1", "prod"),
        record("worker-7", "batch"),
    ];
    let target = resolve("api", &records).unwrap_or_else(|_| panic!("expected a resolution"));
    assert_eq!(target.name, "api-server-abc");
    assert_eq!(target.namespace, "prod");
}

#[test]
fn two_matches_are_ambiguous() {
    let records = vec![record("web-1", "prod"), record("web-2", "prod")];
    let err = match resolve("web", &records) {
        Err(e) => e,
        Ok(_) => panic!("expected an ambiguity"),
    };
    match err {
        ResolveError::Ambiguous(candidates) => {
            assert_eq!(candidates.len(), 2);
            assert_eq!(candidates[0].name, "web-1");
            assert_eq!(candidates[0].namespace, "prod");
            assert_eq!(candidates[1].name, "web-2");
            assert_eq!(candidates[1].namespace, "prod");
        }
        ResolveError::NotFound(_) => panic!("expected an ambiguity, not a miss"),
    }
}

#[test]
fn ambiguous_keeps_query_order_and_membership() {
    let records = vec![
        record("cache-9", "infra"),
        record("web-b", "dev"),
        record("worker-1", "batch"),
        record("web-a", "prod"),
    ];
    let err = match resolve("web", &records) {
        Err(e) => e,
        Ok(_) => panic!("expected an ambiguity"),
    };
    match err {
        ResolveError::Ambiguous(candidates) => {
            assert_eq!(candidates.len(), 2);
            assert_eq!(candidates[0].name, "web-b");
            assert_eq!(candidates[0].namespace, "dev");
            assert_eq!(candidates[1].name, "web-a");
            assert_eq!(candidates[1].namespace, "prod");
        }
        ResolveError::NotFound(_) => panic!("expected an ambiguity, not a miss"),
    }
}

#[test]
fn empty_candidate_set_is_not_found() {
    let records: Vec<PodRecord> = Vec::new();
    match resolve("anything", &records) {
        Err(ResolveError::NotFound(pattern)) => assert_eq!(pattern, "anything"),
        _ => panic!("expected NotFound"),
    }
}

#[test]
fn zero_matches_is_not_found() {
    let records = vec![record("web-1", "prod"), record("web-2", "prod")];
    match resolve("db", &records) {
        Err(ResolveError::NotFound(pattern)) => assert_eq!(pattern, "db"),
        _ => panic!("expected NotFound"),
    }
}

#[test]
fn matching_is_case_sensitive() {
    let records = vec![record("web-1", "prod")];
    match resolve("Web", &records) {
        Err(ResolveError::NotFound(pattern)) => assert_eq!(pattern, "Web"),
        _ => panic!("expected NotFound"),
    }
}

#[test]
fn empty_pattern_matches_every_record() {
    let records = vec![record("web-1", "prod"), record("db-1", "prod")];
    match resolve("", &records) {
        Err(ResolveError::Ambiguous(candidates)) => assert_eq!(candidates.len(), 2),
        _ => panic!("expected every record to match"),
    }
}
