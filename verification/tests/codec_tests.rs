use vine::codec::Message;
use vine::codec::MessageType;

#[test]
fn it_works() {
    assert_eq!(2 + 2, 4);
}

#[test]
fn message_holds_its_parts() {
    let m = Message {
        id: "1".to_string(),
        kind: MessageType::Request,
        target: "helloworld".to_string(),
        method: "Say.Hello".to_string(),
        endpoint: "/hello".to_string(),
        error: String::new(),
        header: vec![("Content-Type".to_string(), "application/json".to_string())],
        body: vec![123, 125],
    };
    assert_eq!(m.kind, MessageType::Request);
    assert_eq!(m.header.len(), 1);
    assert_eq!(m.body, vec![123, 125]);
}
