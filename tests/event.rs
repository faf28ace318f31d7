use rulip::event::{ClientCapabilities, Event, EventOp, Queue, RegisterQueueResponse};
use rulip::{Client, Endpoint, Handshake, Method};

fn client(uri: &str) -> Client {
    match Client::build(uri).start(reqwest::Client::new()).unwrap() {
        Handshake::Ready(c) => c,
        Handshake::FetchKey(_) => panic!("expected a ready session"),
    }
}

fn field<'a>(pairs: &'a [(String, String)], key: &str) -> Option<&'a str> {
    pairs.iter().find(|(k, _)| k == key).map(|(_, v)| v.as_str())
}

fn event(id: i32, kind: &str) -> Event {
    Event::new(id, kind.to_owned(), None)
}

fn queue(last_event_id: i32) -> Queue {
    Queue::new(
        client("https://example.com"),
        RegisterQueueResponse { queue_id: "abc".to_owned(), last_event_id },
    )
}

#[test]
fn queue_builder() {
    let client = client("https://example.com");
    let builder = client
        .queue()
        .for_event("reaction")
        .for_event("reaction")
        .narrow("stream", "general")
        .narrow("is", "public")
        .narrow("is", "public")
        .narrow("is", "private");

    assert_eq!(
        builder.narrow_filters(),
        Some(&vec![
            ["stream".to_owned(), "general".to_owned()],
            ["is".to_owned(), "public".to_owned()],
            ["is".to_owned(), "private".to_owned()],
        ])
    );
    assert_eq!(builder.event_types(), Some(&vec!["reaction".to_owned()]));
}

#[test]
fn for_event_keeps_first_seen_order() {
    let builder = client("https://example.com")
        .queue()
        .for_event("b")
        .for_event("a")
        .for_event("b")
        .for_event("c")
        .for_event("a");
    assert_eq!(
        builder.event_types(),
        Some(&vec!["b".to_owned(), "a".to_owned(), "c".to_owned()])
    );
    assert_eq!(client("https://example.com").queue().event_types(), None);
}

#[test]
fn narrow_compares_both_parts() {
    let builder = client("https://example.com")
        .queue()
        .narrow("is", "public")
        .narrow("public", "is")
        .narrow("is", "public");
    assert_eq!(
        builder.narrow_filters(),
        Some(&vec![
            ["is".to_owned(), "public".to_owned()],
            ["public".to_owned(), "is".to_owned()],
        ])
    );
}

#[test]
fn registration_form_fields() {
    let builder = client("https://example.com")
        .queue()
        .apply_markdown(false)
        .apply_markdown(true)
        .include_subscribers(false)
        .for_event("message")
        .for_event("say \"hi\"")
        .narrow("stream", "general");
    let request = builder.register_request();
    assert_eq!(request.method, Method::Post);
    assert_eq!(request.endpoint, Endpoint::REGISTER_EVENT_QUEUE);
    let keys: Vec<&str> = request.form.iter().map(|(k, _)| k.as_str()).collect();
    assert_eq!(
        keys,
        vec!["apply_markdown", "event_types", "include_subscribers", "narrow", "client_capabilities"]
    );
    assert_eq!(field(&request.form, "apply_markdown"), Some("true"));
    assert_eq!(field(&request.form, "include_subscribers"), Some("false"));
    assert_eq!(
        field(&request.form, "event_types"),
        Some("[\"message\",\"say \\\"hi\\\"\"]")
    );
    assert_eq!(field(&request.form, "narrow"), Some("[[\"stream\",\"general\"]]"));
    assert_eq!(
        field(&request.form, "client_capabilities"),
        Some(
            "{\"notification_settings_null\":true,\"bulk_message_deletion\":true,\
             \"user_avatar_url_field_optional\":true,\"stream_typing_notifications\":true,\
             \"user_settings_object\":true}"
        )
    );
}

#[test]
fn registration_round_trip() {
    let builder = client("https://example.com")
        .queue()
        .apply_markdown(true)
        .for_event("message");
    let request = builder.register_request();
    assert_eq!(field(&request.form, "apply_markdown"), Some("true"));
    assert_eq!(field(&request.form, "event_types"), Some("[\"message\"]"));
    let queue = builder.finish(RegisterQueueResponse {
        queue_id: "abc".to_owned(),
        last_event_id: -1,
    });
    assert_eq!(queue.id(), "abc");
    assert_eq!(queue.last_event_id(), -1);
    let poll = queue.poll_request();
    assert_eq!(poll.method, Method::Get);
    assert_eq!(poll.endpoint, Endpoint::EVENTS_QUEUE);
    assert!(poll.form.is_empty());
    assert_eq!(
        poll.query,
        vec![
            ("queue_id".to_owned(), "abc".to_owned()),
            ("last_event_id".to_owned(), "-1".to_owned()),
        ]
    );
}

#[test]
fn cursor_follows_last_event() {
    let mut q = queue(-1);
    let batch = q.receive(vec![event(3, "message"), event(9, "update"), event(7, "message")]);
    assert_eq!(batch.map(|b| b.len()), Some(3));
    assert_eq!(q.last_event_id(), 7);
    q.receive(vec![event(12, "message")]);
    assert_eq!(q.last_event_id(), 12);
    assert_eq!(field(&q.poll_request().query, "last_event_id"), Some("12"));
}

#[test]
fn empty_batch_keeps_cursor() {
    let mut q = queue(4);
    let batch = q.receive(vec![]).unwrap();
    assert!(batch.is_empty());
    assert_eq!(q.last_event_id(), 4);
}

#[test]
fn heartbeat_last_is_suppressed() {
    let mut q = queue(4);
    let batch = q.receive(vec![event(5, "update"), event(6, "heartbeat")]);
    assert!(batch.is_none());
    assert_eq!(q.last_event_id(), 6);
}

#[test]
fn heartbeat_not_last_is_returned() {
    let mut q = queue(4);
    let batch = q.receive(vec![event(5, "heartbeat"), event(6, "update")]).unwrap();
    assert_eq!(batch.len(), 2);
    assert_eq!(batch[0].kind(), "heartbeat");
    assert_eq!(batch[0].id(), 5);
    assert_eq!(batch[1].kind(), "update");
    assert_eq!(q.last_event_id(), 6);
}

#[test]
fn unregister_request_sends_queue_id() {
    let q = queue(4);
    let request = q.unregister_request();
    assert_eq!(request.method, Method::Delete);
    assert_eq!(request.endpoint, Endpoint::EVENTS_QUEUE);
    assert_eq!(request.form, vec![("queue_id".to_owned(), "abc".to_owned())]);
    assert!(request.query.is_empty());
}

#[test]
fn event_accessors() {
    let e = Event::new(3, "reaction".to_owned(), Some(EventOp::Add));
    assert_eq!(e.id(), 3);
    assert_eq!(e.op(), Some(EventOp::Add));
    assert!(!e.is_heartbeat());
    assert!(event(1, "heartbeat").is_heartbeat());
}

#[test]
fn event_op_names() {
    assert_eq!(EventOp::from_name("update"), Some(EventOp::Update));
    assert_eq!(EventOp::from_name("peer_remove"), Some(EventOp::PeerRemove));
    assert_eq!(EventOp::from_name("add_subgroups"), Some(EventOp::AddSubgroups));
    assert_eq!(EventOp::from_name("update_dict"), Some(EventOp::UpdateDict));
    assert_eq!(EventOp::from_name("deactivated"), Some(EventOp::Deactivated));
    assert_eq!(EventOp::from_name("Update"), None);
    assert_eq!(EventOp::from_name(""), None);
}

#[test]
fn capabilities_default_to_all() {
    let c = ClientCapabilities::default();
    assert_eq!(c, ClientCapabilities::new());
    assert!(c.notification_settings_null && c.bulk_message_deletion && c.user_settings_object);
    let mut off = c;
    off.stream_typing_notifications = false;
    assert!(off.to_json().contains("\"stream_typing_notifications\":false"));
}
