use engine_bridge::imports::DynamicImportResolver;

#[test]
fn burst_of_requests_issues_distinct_increasing_ids() {
    let mut resolver = DynamicImportResolver::new();
    let mut ids: Vec<u64> = Vec::new();
    for k in 0..100u64 {
        ids.push(resolver.request_import(5000 + k));
    }
    for i in 0..ids.len() {
        for j in (i + 1)..ids.len() {
            assert!(ids[i] < ids[j], "ids grow strictly with issuance order");
        }
    }
}

#[test]
fn completion_consumes_its_entry_exactly_once() {
    let mut resolver = DynamicImportResolver::new();
    let id = resolver.request_import(777);
    assert!(resolver.is_in_flight(id));
    assert_eq!(resolver.complete_import(id), Some(777));
    assert!(!resolver.is_in_flight(id));
    // The second completion of the same id is an ignorable no-op.
    assert_eq!(resolver.complete_import(id), None);
}

#[test]
fn completing_an_unknown_id_is_a_noop() {
    let mut resolver = DynamicImportResolver::new();
    let id = resolver.request_import(1);
    assert_eq!(resolver.complete_import(999), None);
    assert!(resolver.is_in_flight(id), "the unknown completion must not disturb the map");
    assert_eq!(resolver.next_import_id, 1);
}

#[test]
fn ids_are_never_reused_after_completion() {
    let mut resolver = DynamicImportResolver::new();
    let first = resolver.request_import(10);
    resolver.complete_import(first);
    let second = resolver.request_import(20);
    assert_ne!(first, second);
    assert!(second > first);
}
