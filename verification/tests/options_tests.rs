use vine::options::Options;
use vine::options::RegisterOptions;
use vine::options::WatchOptions;
use vine::types::Service;
use vine::types::WatchResult;

#[test]
fn connection_options_default_and_build() {
    let mut o = Options::new();
    assert_eq!(o.addr, vec!["127.0.0.1:2379".to_string()]);
    assert_eq!(o.timeout, 15);
    assert!(!o.secure);
    o.with_timeout(30);
    o.with_secure(true);
    assert_eq!(o.timeout, 30);
    assert!(o.secure);
}

#[test]
fn zero_timeout_normalizes_to_five_seconds() {
    let mut o = Options::new();
    o.with_timeout(0);
    let o = o.normalized();
    assert_eq!(o.timeout, 5);
    let mut o2 = Options::new();
    o2.with_timeout(9);
    assert_eq!(o2.normalized().timeout, 9);
}

#[test]
fn register_options_default_ttl() {
    let mut o = RegisterOptions::new();
    assert_eq!(o.ttl, 15);
    o.with_ttl(60);
    assert_eq!(o.ttl, 60);
}

#[test]
fn watch_options_default_to_whole_namespace() {
    let mut o = WatchOptions::new();
    assert_eq!(o.service, "");
    o.with_service("io.vine.helloworld".to_string());
    assert_eq!(o.service, "io.vine.helloworld");
}

#[test]
fn empty_service_record() {
    let s = Service::new();
    assert_eq!(s.name, "");
    assert_eq!(s.version, "");
    assert!(s.nodes.is_empty());
    assert!(s.options.is_none());
    assert!(s.apis.is_none());
}

#[test]
fn watch_result_setters() {
    let mut r = WatchResult::new();
    assert_eq!(r.action, "");
    assert!(r.service.is_none());
    assert_eq!(r.timestamp, 0);
    r.set_action("create".to_string());
    r.set_service(Service::new());
    r.set_timestamp(99);
    assert_eq!(r.action, "create");
    assert!(r.service.is_some());
    assert_eq!(r.timestamp, 99);
}
