use little_stomper::destinations::{
    route_send, unknown_destination_error, DestinationId, InboundMessage, MessageId, OutboundMessage, SendRoute,
    SubscriptionId,
};
use little_stomper::error::StomperError;
use little_stomper::inmemory::{InMemDestinationBackend, Subscription};
use std::sync::{Arc, Mutex};

type SendFn = Box<dyn Fn(SubscriptionId, Option<SubscriptionId>, OutboundMessage) -> Result<(), StomperError>>;

type Log = Arc<Mutex<Vec<(SubscriptionId, Option<SubscriptionId>, OutboundMessage)>>>;

fn recording(log: &Log) -> SendFn {
    let log = log.clone();
    Box::new(move |id, subscriber_sub_id, message| {
        log.lock().unwrap().push((id, subscriber_sub_id, message));
        Ok(())
    })
}

fn failing(calls: &Arc<Mutex<usize>>) -> SendFn {
    let calls = calls.clone();
    Box::new(move |_, _, _| {
        *calls.lock().unwrap() += 1;
        Err(StomperError::new("Unable to send message, client channel closed"))
    })
}

fn message(text: &str) -> InboundMessage {
    InboundMessage { sender_message_id: Some(MessageId::from("my_msg")), body: text.as_bytes().to_vec() }
}

#[test]
fn destination_calls_subscribe_callback() {
    let log: Log = Arc::new(Mutex::new(Vec::new()));
    let mut backend: InMemDestinationBackend<SendFn> = InMemDestinationBackend::new(DestinationId::from("foo"));
    let (destination, subscriber_sub_id, result) =
        backend.add_subscription(Some(SubscriptionId::from("bar")), recording(&log));
    assert_eq!("foo", destination.as_str());
    assert_eq!(Some(SubscriptionId::from("bar")), subscriber_sub_id);
    assert_eq!(36, result.expect("subscription").as_str().len());
}

#[test]
fn subscription_ids_are_fresh() {
    let log: Log = Arc::new(Mutex::new(Vec::new()));
    let mut backend: InMemDestinationBackend<SendFn> = InMemDestinationBackend::new(DestinationId::from("foo"));
    let first = backend.add_subscription(None, recording(&log)).2.unwrap();
    let second = backend.add_subscription(None, recording(&log)).2.unwrap();
    assert_ne!(first, second);
}

#[test]
fn destination_calls_unsubscribe_callback() {
    let log: Log = Arc::new(Mutex::new(Vec::new()));
    let mut backend: InMemDestinationBackend<SendFn> = InMemDestinationBackend::new(DestinationId::from("foo"));
    let id = backend.add_subscription(Some(SubscriptionId::from("bar")), recording(&log)).2.unwrap();

    let (subscriber_sub_id, result) = backend.remove_subscription(id.clone());
    assert_eq!(Some(SubscriptionId::from("bar")), subscriber_sub_id);
    assert_eq!(Ok(id.clone()), result);

    // A second cancellation finds nothing.
    let (subscriber_sub_id, result) = backend.remove_subscription(id.clone());
    assert_eq!(None, subscriber_sub_id);
    assert_eq!(Ok(id), result);
}

#[test]
fn destination_calls_send_callback() {
    let mut backend: InMemDestinationBackend<SendFn> = InMemDestinationBackend::new(DestinationId::from("foo"));
    let (sender_message_id, result) = backend.send(InboundMessage {
        sender_message_id: Some(MessageId::from("msg-1")),
        body: b"Slartibartfast rules".to_vec(),
    });
    assert_eq!(Some(MessageId::from("msg-1")), sender_message_id);
    assert_eq!(36, result.expect("message id").as_str().len());
}

#[test]
fn destination_sends_to_subscribers() {
    let log: Log = Arc::new(Mutex::new(Vec::new()));
    let mut backend: InMemDestinationBackend<SendFn> = InMemDestinationBackend::new(DestinationId::from("foo"));
    backend.add_subscription_with_id(SubscriptionId::from("s1"), Some(SubscriptionId::from("a")), recording(&log));
    backend.add_subscription_with_id(SubscriptionId::from("s2"), None, recording(&log));

    let (sender_message_id, result) = backend.send_with_id(message("Hello, World 42"), MessageId::from("m-9"));
    assert_eq!(Some(MessageId::from("my_msg")), sender_message_id);
    assert_eq!(Ok(MessageId::from("m-9")), result);

    let mut delivered = log.lock().unwrap().clone();
    delivered.sort_by(|a, b| a.0 .0.cmp(&b.0 .0));
    assert_eq!(2, delivered.len());
    assert_eq!(SubscriptionId::from("s1"), delivered[0].0);
    assert_eq!(Some(SubscriptionId::from("a")), delivered[0].1);
    assert_eq!(SubscriptionId::from("s2"), delivered[1].0);
    assert_eq!(None, delivered[1].1);
    for (_, _, m) in delivered {
        assert_eq!(DestinationId::from("foo"), m.destination);
        assert_eq!(MessageId::from("m-9"), m.message_id);
        assert_eq!(b"Hello, World 42".to_vec(), m.body);
    }
}

#[test]
fn subscriber_error_drops_subscription() {
    let log: Log = Arc::new(Mutex::new(Vec::new()));
    let calls = Arc::new(Mutex::new(0usize));
    let mut backend: InMemDestinationBackend<SendFn> = InMemDestinationBackend::new(DestinationId::from("foo"));
    backend.add_subscription_with_id(SubscriptionId::from("dead"), None, failing(&calls));
    backend.add_subscription_with_id(SubscriptionId::from("alive"), None, recording(&log));

    backend.send(message("one"));
    backend.send(message("two"));

    assert_eq!(1, *calls.lock().unwrap());
    assert_eq!(2, log.lock().unwrap().len());
    // The failed subscription is gone.
    assert_eq!(None, backend.remove_subscription(SubscriptionId::from("dead")).0);
}

#[test]
fn replacing_a_subscription_keeps_one() {
    let log: Log = Arc::new(Mutex::new(Vec::new()));
    let mut backend: InMemDestinationBackend<SendFn> = InMemDestinationBackend::new(DestinationId::from("foo"));
    backend.add_subscription_with_id(SubscriptionId::from("s1"), Some(SubscriptionId::from("a")), recording(&log));
    backend.add_subscription_with_id(SubscriptionId::from("s1"), Some(SubscriptionId::from("b")), recording(&log));
    backend.send(message("once"));
    assert_eq!(1, log.lock().unwrap().len());
    assert_eq!(Some(SubscriptionId::from("b")), backend.remove_subscription(SubscriptionId::from("s1")).0);
}

#[test]
fn subscription_send_passes_both_ids() {
    let log: Log = Arc::new(Mutex::new(Vec::new()));
    let subscription = Subscription {
        id: SubscriptionId::from("sub-1"),
        subscriber_sub_id: Some(SubscriptionId::from("mine")),
        send_fn: recording(&log),
    };
    let out = OutboundMessage {
        destination: DestinationId::from("somedest"),
        message_id: MessageId::from("Arbitrary"),
        body: b"Hello, World".to_vec(),
    };
    assert!(subscription.send(out).is_ok());
    let delivered = log.lock().unwrap();
    assert_eq!(SubscriptionId::from("sub-1"), delivered[0].0);
    assert_eq!(Some(SubscriptionId::from("mine")), delivered[0].1);
    assert_eq!(b"Hello, World".to_vec(), delivered[0].2.body);
}

#[test]
fn backend_reports_its_id() {
    let backend: InMemDestinationBackend<SendFn> = InMemDestinationBackend::new(DestinationId::from("queue/a"));
    assert_eq!("queue/a", backend.id().as_str());
}

#[test]
fn unknown_destination_error_names_destination() {
    assert_eq!("Unknown destination 'nowhere'", unknown_destination_error(&DestinationId::from("nowhere")).message);
}

#[test]
fn send_is_routed_to_a_known_destination() {
    match route_send(Some(7u8), &DestinationId::from("foo"), message("hi")) {
        SendRoute::Deliver(found, delivered) => {
            assert_eq!(7, found);
            assert_eq!(b"hi".to_vec(), delivered.body);
        }
        SendRoute::Refuse(..) => panic!("expected delivery"),
    }
}

#[test]
fn send_to_unknown_destination_is_refused() {
    match route_send::<u8>(None, &DestinationId::from("nowhere"), message("hi")) {
        SendRoute::Refuse(id, err) => {
            assert_eq!(Some(MessageId::from("my_msg")), id);
            assert_eq!("Unknown destination 'nowhere'", err.message);
        }
        SendRoute::Deliver(..) => panic!("expected a refusal"),
    }
}
