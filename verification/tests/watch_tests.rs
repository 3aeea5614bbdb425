use vine::types::Node;
use vine::types::Service;
use vine::watch::RawEvent;
use vine::watch::RawEventKind;
use vine::watch::classify_event;
use vine::watch::next_event;

fn svc(name: &str) -> Service {
    Service {
        name: name.to_string(),
        version: "v1.0.0".to_string(),
        metadata: Vec::new(),
        endpoints: Vec::new(),
        nodes: vec![Node {
            id: "1".to_string(),
            address: "192.168.1.111".to_string(),
            port: 11101,
            metadata: Vec::new(),
        }],
        options: None,
        apis: None,
    }
}

fn put(create_revision: i64, mod_revision: i64, value: Option<Service>) -> RawEvent {
    RawEvent {
        kind: RawEventKind::Put,
        has_kv: true,
        create_revision,
        mod_revision,
        value,
        prev_value: None,
    }
}

#[test]
fn put_at_creation_revision_is_a_create() {
    let (action, s) = classify_event(put(5, 5, Some(svc("io.vine.helloworld")))).unwrap();
    assert_eq!(action, "create");
    assert_eq!(s.name, "io.vine.helloworld");
}

#[test]
fn put_past_creation_revision_is_an_update() {
    let (action, _) = classify_event(put(5, 9, Some(svc("io.vine.helloworld")))).unwrap();
    assert_eq!(action, "update");
}

#[test]
fn delete_carries_the_previous_value() {
    let e = RawEvent {
        kind: RawEventKind::Delete,
        has_kv: true,
        create_revision: 5,
        mod_revision: 9,
        value: None,
        prev_value: Some(svc("io.vine.helloworld")),
    };
    let (action, s) = classify_event(e).unwrap();
    assert_eq!(action, "delete");
    assert_eq!(s.name, "io.vine.helloworld");
}

#[test]
fn notifications_without_a_record_are_skipped() {
    let mut e = put(5, 5, Some(svc("io.vine.helloworld")));
    e.has_kv = false;
    assert!(classify_event(e).is_none());
}

#[test]
fn puts_that_do_not_decode_are_skipped() {
    assert!(classify_event(put(5, 5, None)).is_none());
}

#[test]
fn deletes_without_a_previous_value_are_skipped() {
    let e = RawEvent {
        kind: RawEventKind::Delete,
        has_kv: true,
        create_revision: 5,
        mod_revision: 9,
        value: None,
        prev_value: None,
    };
    assert!(classify_event(e).is_none());
}

#[test]
fn next_event_wraps_the_classification() {
    let w = next_event(put(3, 3, Some(svc("io.vine.helloworld")))).unwrap();
    assert_eq!(w.action, "create");
    assert_eq!(w.service.unwrap().name, "io.vine.helloworld");

    assert!(next_event(put(3, 3, None)).is_none());
}
