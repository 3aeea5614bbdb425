use vine::types::Node;

fn node(id: &str, address: &str, port: i64, metadata: Vec<(String, String)>) -> Node {
    Node {
        id: id.to_string(),
        address: address.to_string(),
        port,
        metadata,
    }
}

#[test]
fn equal_nodes_have_equal_digests() {
    let a = node("1", "192.168.1.111", 11101, vec![]);
    let b = node("1", "192.168.1.111", 11101, vec![]);
    assert_eq!(a.content_hash(), b.content_hash());
}

#[test]
fn metadata_order_does_not_change_the_digest() {
    let m1 = vec![
        ("a".to_string(), "1".to_string()),
        ("b".to_string(), "2".to_string()),
        ("c".to_string(), "3".to_string()),
    ];
    let m2 = vec![
        ("c".to_string(), "3".to_string()),
        ("a".to_string(), "1".to_string()),
        ("b".to_string(), "2".to_string()),
    ];
    let a = node("1", "192.168.1.111", 11101, m1);
    let b = node("1", "192.168.1.111", 11101, m2);
    assert_eq!(a.content_hash(), b.content_hash());
}

#[test]
fn each_field_reaches_the_digest() {
    let base = node("1", "192.168.1.111", 11101, vec![]);
    assert_ne!(base.content_hash(), node("2", "192.168.1.111", 11101, vec![]).content_hash());
    assert_ne!(base.content_hash(), node("1", "192.168.1.112", 11101, vec![]).content_hash());
    assert_ne!(base.content_hash(), node("1", "192.168.1.111", 11102, vec![]).content_hash());
    let with_meta = node(
        "1",
        "192.168.1.111",
        11101,
        vec![("weight".to_string(), "10".to_string())],
    );
    assert_ne!(base.content_hash(), with_meta.content_hash());
}

#[test]
fn metadata_value_change_changes_the_digest() {
    let a = node(
        "1",
        "192.168.1.111",
        11101,
        vec![("weight".to_string(), "10".to_string())],
    );
    let b = node(
        "1",
        "192.168.1.111",
        11101,
        vec![("weight".to_string(), "11".to_string())],
    );
    assert_ne!(a.content_hash(), b.content_hash());
}
