use vine::registry::RegistryError;
use vine::registry::RenewalStep;
use vine::registry::StoredEntry;
use vine::registry::adopt_existing;
use vine::registry::aggregate;
use vine::registry::commit_registration;
use vine::registry::effective_ttl;
use vine::registry::get_service_outcome;
use vine::registry::list_service_outcome;
use vine::registry::make_key;
use vine::registry::node_path;
use vine::registry::plan_renewal;
use vine::registry::registry_prefix;
use vine::registry::service_path;
use vine::registry::service_scan_path;
use vine::registry::should_skip;
use vine::registry::single_node_service;
use vine::registry::validate_service;
use vine::registry::watch_path;
use vine::options::RegisterOptions;
use vine::options::WatchOptions;
use vine::tracker::RegistrationTracker;
use vine::types::Node;
use vine::types::Service;

fn node(id: &str, address: &str, port: i64) -> Node {
    Node {
        id: id.to_string(),
        address: address.to_string(),
        port,
        metadata: Vec::new(),
    }
}

fn svc(name: &str, version: &str, nodes: Vec<Node>) -> Service {
    Service {
        name: name.to_string(),
        version: version.to_string(),
        metadata: Vec::new(),
        endpoints: Vec::new(),
        nodes,
        options: None,
        apis: None,
    }
}

#[test]
fn register_refuses_service_without_nodes() {
    let s = svc("io.vine.helloworld", "v1.0.0", vec![]);
    assert!(matches!(validate_service(&s), Err(RegistryError::Validation)));
}

#[test]
fn register_accepts_service_with_a_node() {
    let s = svc("io.vine.helloworld", "v1.0.0", vec![node("1", "192.168.1.111", 11101)]);
    assert!(validate_service(&s).is_ok());
}

#[test]
fn paths_are_prefixed_and_sanitized() {
    assert_eq!(registry_prefix(), "/vine/registry");
    assert_eq!(service_path("io.vine.helloworld"), "/vine/registry/io.vine.helloworld");
    assert_eq!(service_scan_path("io.vine.helloworld"), "/vine/registry/io.vine.helloworld/");
    assert_eq!(node_path("io.vine.helloworld", "1"), "/vine/registry/io.vine.helloworld/1");
    assert_eq!(node_path("a/b", "c/d"), "/vine/registry/a-b/c-d");
    assert_eq!(service_path("x/y/z"), "/vine/registry/x-y-z");
}

#[test]
fn cache_keys_concatenate_name_and_id() {
    assert_eq!(make_key("io.vine.helloworld", "1"), "io.vine.helloworld1");
}

#[test]
fn watch_path_scopes_to_a_service_or_the_namespace() {
    assert_eq!(watch_path(&None), "/vine/registry");
    let o = WatchOptions::new();
    assert_eq!(watch_path(&Some(o)), "/vine/registry");
    let mut o = WatchOptions::new();
    o.with_service("io.vine.helloworld".to_string());
    assert_eq!(watch_path(&Some(o)), "/vine/registry/io.vine.helloworld/");
}

#[test]
fn ttl_defaults_to_fifteen_seconds() {
    assert_eq!(effective_ttl(&None), 15);
    let mut o = RegisterOptions::new();
    o.with_ttl(30);
    assert_eq!(effective_ttl(&Some(o)), 30);
}

#[test]
fn first_registration_writes_then_second_skips() {
    let mut t = RegistrationTracker::new();
    let key = make_key("io.vine.helloworld", "1");
    let n = node("1", "192.168.1.111", 11101);

    // Nothing cached: the procedure reads the store path first.
    assert!(matches!(plan_renewal(&t, &key), RenewalStep::ReadStore));
    // The store had nothing to adopt.
    adopt_existing(&mut t, &vec![]);
    // No digest cached, so the write goes out.
    assert!(!should_skip(&t, &key, &n, false));
    commit_registration(&mut t, &key, &n, 7);

    // Second call: the lease is renewed, the unchanged node skips the
    // write, and no new lease is requested.
    assert!(matches!(plan_renewal(&t, &key), RenewalStep::KeepAlive(7)));
    let again = node("1", "192.168.1.111", 11101);
    assert!(should_skip(&t, &key, &again, false));
}

#[test]
fn changed_node_content_writes_again() {
    let mut t = RegistrationTracker::new();
    let key = make_key("io.vine.helloworld", "1");
    let n = node("1", "192.168.1.111", 11101);
    commit_registration(&mut t, &key, &n, 7);

    let new_port = node("1", "192.168.1.111", 11102);
    assert!(!should_skip(&t, &key, &new_port, false));

    let new_address = node("1", "192.168.1.112", 11101);
    assert!(!should_skip(&t, &key, &new_address, false));

    let mut with_meta = node("1", "192.168.1.111", 11101);
    with_meta.metadata.push(("weight".to_string(), "10".to_string()));
    assert!(!should_skip(&t, &key, &with_meta, false));
}

#[test]
fn changed_metadata_value_writes_again() {
    let mut t = RegistrationTracker::new();
    let key = make_key("io.vine.helloworld", "1");
    let mut n = node("1", "192.168.1.111", 11101);
    n.metadata.push(("weight".to_string(), "10".to_string()));
    commit_registration(&mut t, &key, &n, 7);

    let mut changed = node("1", "192.168.1.111", 11101);
    changed.metadata.push(("weight".to_string(), "11".to_string()));
    assert!(!should_skip(&t, &key, &changed, false));
}

#[test]
fn failed_renewal_forces_the_write() {
    let mut t = RegistrationTracker::new();
    let key = make_key("io.vine.helloworld", "1");
    let n = node("1", "192.168.1.111", 11101);
    commit_registration(&mut t, &key, &n, 7);

    let again = node("1", "192.168.1.111", 11101);
    assert!(!should_skip(&t, &key, &again, true));
}

#[test]
fn lease_grant_failure_records_no_lease() {
    let mut t = RegistrationTracker::new();
    let key = make_key("io.vine.helloworld", "1");
    let n = node("1", "192.168.1.111", 11101);
    // A lease id of zero means the grant failed and the record was
    // written without a lease: nothing to renew next time.
    commit_registration(&mut t, &key, &n, 0);
    assert!(matches!(plan_renewal(&t, &key), RenewalStep::ReadStore));
    // The digest is still cached, so the unchanged node skips.
    let again = node("1", "192.168.1.111", 11101);
    assert!(should_skip(&t, &key, &again, false));
}

#[test]
fn adopting_a_stored_record_skips_the_write() {
    let mut t = RegistrationTracker::new();
    let stored = svc("io.vine.helloworld", "v1.0.0", vec![node("1", "192.168.1.111", 11101)]);
    adopt_existing(
        &mut t,
        &vec![StoredEntry { lease_id: 42, service: Some(stored) }],
    );

    let key = make_key("io.vine.helloworld", "1");
    assert!(matches!(plan_renewal(&t, &key), RenewalStep::KeepAlive(42)));
    let n = node("1", "192.168.1.111", 11101);
    assert!(should_skip(&t, &key, &n, false));
}

#[test]
fn records_without_an_active_lease_are_not_adopted() {
    let mut t = RegistrationTracker::new();
    let stored = svc("io.vine.helloworld", "v1.0.0", vec![node("1", "192.168.1.111", 11101)]);
    adopt_existing(
        &mut t,
        &vec![
            StoredEntry { lease_id: 0, service: Some(stored) },
            StoredEntry { lease_id: 9, service: None },
        ],
    );
    let key = make_key("io.vine.helloworld", "1");
    assert!(matches!(plan_renewal(&t, &key), RenewalStep::ReadStore));
}

#[test]
fn deregister_clears_the_cache_and_the_key() {
    let mut t = RegistrationTracker::new();
    let key = make_key("io.vine.helloworld", "1");
    let n = node("1", "192.168.1.111", 11101);
    commit_registration(&mut t, &key, &n, 7);

    t.forget(&key);
    assert!(matches!(plan_renewal(&t, &key), RenewalStep::ReadStore));
    assert!(!should_skip(&t, &key, &n, false));

    // With the store key deleted, a scan finds nothing.
    assert!(matches!(get_service_outcome(vec![]), Err(RegistryError::NotFound)));
}

#[test]
fn single_node_copy_keeps_fields_and_one_node() {
    let s = svc(
        "io.vine.helloworld",
        "v1.0.0",
        vec![node("1", "192.168.1.111", 11101), node("2", "192.168.1.112", 11102)],
    );
    let n = node("2", "192.168.1.112", 11102);
    let one = single_node_service(s, n);
    assert_eq!(one.name, "io.vine.helloworld");
    assert_eq!(one.version, "v1.0.0");
    assert_eq!(one.nodes.len(), 1);
    assert_eq!(one.nodes[0].id, "2");
}

#[test]
fn get_service_on_empty_scan_is_not_found() {
    assert!(matches!(get_service_outcome(vec![]), Err(RegistryError::NotFound)));
}

#[test]
fn list_service_on_empty_namespace_is_an_empty_list() {
    let r = list_service_outcome(vec![]);
    assert!(r.is_empty());
}

#[test]
fn two_nodes_of_one_version_aggregate_into_one_service() {
    let s1 = svc("io.vine.helloworld", "v1.0.0", vec![node("1", "192.168.1.111", 11101)]);
    let s2 = svc("io.vine.helloworld", "v1.0.0", vec![node("2", "192.168.1.112", 11102)]);
    let r = aggregate(vec![Some(s1), Some(s2)]);
    assert_eq!(r.len(), 1);
    assert_eq!(r[0].nodes.len(), 2);
    assert_eq!(r[0].nodes[0].id, "1");
    assert_eq!(r[0].nodes[1].id, "2");
}

#[test]
fn two_versions_aggregate_into_two_services_in_order() {
    let s2 = svc("io.vine.helloworld", "v2.0.0", vec![node("2", "192.168.1.112", 11102)]);
    let s1 = svc("io.vine.helloworld", "v1.0.0", vec![node("1", "192.168.1.111", 11101)]);
    let r = list_service_outcome(vec![Some(s2), Some(s1)]);
    assert_eq!(r.len(), 2);
    assert_eq!(r[0].version, "v1.0.0");
    assert_eq!(r[1].version, "v2.0.0");
}

#[test]
fn records_that_do_not_decode_are_skipped() {
    let s1 = svc("io.vine.helloworld", "v1.0.0", vec![node("1", "192.168.1.111", 11101)]);
    let r = get_service_outcome(vec![None, Some(s1), None]).unwrap();
    assert_eq!(r.len(), 1);
    assert_eq!(r[0].nodes.len(), 1);
}

#[test]
fn all_records_failing_to_decode_is_an_empty_aggregation() {
    let r = get_service_outcome(vec![None, None]).unwrap();
    assert!(r.is_empty());
}

#[test]
fn register_then_get_then_deregister_round_trip() {
    // The store is played by a plain vector of decoded records.
    let mut t = RegistrationTracker::new();
    let n = node("1", "192.168.1.111", 11101);
    let s = svc("io.vine.helloworld", "v1.0.0", vec![node("1", "192.168.1.111", 11101)]);

    assert!(validate_service(&s).is_ok());
    let key = make_key(&s.name, &s.nodes[0].id);
    assert!(matches!(plan_renewal(&t, &key), RenewalStep::ReadStore));
    adopt_existing(&mut t, &vec![]);
    assert!(!should_skip(&t, &key, &n, false));
    let written = single_node_service(s, n);
    let n_committed = node("1", "192.168.1.111", 11101);
    commit_registration(&mut t, &key, &n_committed, 5);

    // get_service sees the one stored record.
    let got = get_service_outcome(vec![Some(written)]).unwrap();
    assert_eq!(got.len(), 1);
    assert_eq!(got[0].nodes[0].id, "1");

    // deregister: the cache entry and the store key both go.
    t.forget(&key);
    assert!(matches!(get_service_outcome(vec![]), Err(RegistryError::NotFound)));
}
