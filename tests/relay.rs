use notify_relay::relay::{Action, ConnState, Event, RelayWorker, RETRY_SECONDS};
use notify_relay::sql::{listen_statement, notify_statement};
use notify_relay::topology::{seller_topology, stock_topology, StartupError};

fn stock_worker(id: i32) -> RelayWorker {
    RelayWorker::start(&stock_topology(), Some(id), RETRY_SECONDS).ok().unwrap()
}

fn listening(w: &mut RelayWorker) {
    assert!(matches!(w.step(Event::Resume), Action::Connect));
    match w.step(Event::Connected) {
        Action::Subscribe { statement } => assert_eq!(statement, format!("LISTEN {}", w.input_channel)),
        _ => panic!("expected a subscription"),
    }
    assert!(matches!(w.step(Event::Subscribed), Action::Receive));
    assert_eq!(w.state, ConnState::Listening);
}

fn published(a: Action) -> (String, String) {
    match a {
        Action::Publish { statement, payload } => (statement, payload),
        _ => panic!("expected a publish"),
    }
}

#[test]
fn worker_subscribes_once_to_its_input() {
    let mut w = stock_worker(1);
    assert_eq!(w.state, ConnState::Disconnected);
    let mut subscriptions = Vec::new();
    let events = vec![Event::Resume, Event::Connected, Event::Subscribed];
    for e in events {
        if let Action::Subscribe { statement } = w.step(e) {
            subscriptions.push(statement);
        }
    }
    assert_eq!(subscriptions, vec!["LISTEN product_changes".to_string()]);
    assert_eq!(w.state, ConnState::Listening);
}

#[test]
fn payload_is_forwarded_verbatim() {
    let mut w = stock_worker(0);
    listening(&mut w);
    let p = "{\"tid\" : \"7\", \"status\" : \"SUCCESS\", \"x\": \"ümlaut\"}".to_string();
    let (statement, payload) = published(w.step(Event::Notification(p.clone())));
    assert_eq!(statement, "SELECT pg_notify('stock_price_update_channel', $1)");
    assert_eq!(payload, p);
    assert_eq!(w.state, ConnState::Publishing);
    assert!(matches!(w.step(Event::Published), Action::Receive));
    assert_eq!(w.state, ConnState::Listening);
}

#[test]
fn empty_payload_is_forwarded() {
    let mut w = stock_worker(4);
    listening(&mut w);
    let (_, payload) = published(w.step(Event::Notification(String::new())));
    assert_eq!(payload, "");
}

#[test]
fn unreachable_store_is_retried_every_pause() {
    let mut w = stock_worker(2);
    for _ in 0..10 {
        assert!(matches!(w.step(Event::Resume), Action::Connect));
        match w.step(Event::ConnectFailed) {
            Action::Backoff { seconds } => assert_eq!(seconds, 5),
            _ => panic!("expected a pause"),
        }
        assert_eq!(w.state, ConnState::Disconnected);
    }
    listening(&mut w);
}

#[test]
fn failed_subscription_reconnects_after_pause() {
    let mut w = stock_worker(2);
    w.step(Event::Resume);
    w.step(Event::Connected);
    assert!(matches!(w.step(Event::SubscribeFailed), Action::Backoff { seconds: 5 }));
    assert_eq!(w.state, ConnState::Disconnected);
    listening(&mut w);
}

#[test]
fn invalid_id_gives_no_worker() {
    let t = stock_topology();
    assert_eq!(RelayWorker::start(&t, Some(-1), 5).err(), Some(StartupError::OutOfRange(-1)));
    assert_eq!(RelayWorker::start(&t, Some(5), 5).err(), Some(StartupError::OutOfRange(5)));
    assert_eq!(RelayWorker::start(&t, None, 5).err(), Some(StartupError::MissingId));
}

#[test]
fn publish_failure_keeps_listening() {
    let mut w = stock_worker(3);
    listening(&mut w);
    published(w.step(Event::Notification("first".to_string())));
    assert!(matches!(w.step(Event::PublishFailed), Action::Receive));
    assert_eq!(w.state, ConnState::Listening);
    let (statement, payload) = published(w.step(Event::Notification("second".to_string())));
    assert_eq!(statement, "SELECT pg_notify('stock_payment_confirmed_channel', $1)");
    assert_eq!(payload, "second");
}

#[test]
fn seller_worker_uses_seller_table() {
    let mut w = RelayWorker::start(&seller_topology(), Some(8), 5).ok().unwrap();
    assert_eq!(w.id, 8);
    assert_eq!(w.input_channel, "shipment");
    assert_eq!(w.output_channel, "seller_shipment_channel");
    listening(&mut w);
    let (statement, _) = published(w.step(Event::Notification("s".to_string())));
    assert_eq!(statement, "SELECT pg_notify('seller_shipment_channel', $1)");
}

#[test]
fn checkout_mark_reaches_stock_channel() {
    let mut w = stock_worker(2);
    assert_eq!(w.input_channel, "checkout");
    listening(&mut w);
    let p = "{\"tid\" : \"i1\", \"type\" : \"CHECKOUT\", \"actorId\" : 3, \"status\" : \"SUCCESS\", \"source\" : \"order\"}".to_string();
    let (statement, payload) = published(w.step(Event::Notification(p.clone())));
    assert_eq!(statement, notify_statement("stock_checkout_update_channel"));
    assert_eq!(payload, p);
    assert!(matches!(w.step(Event::Published), Action::Receive));
}

#[test]
fn end_of_stream_and_receive_error_reconnect() {
    let mut w = stock_worker(0);
    listening(&mut w);
    assert!(matches!(w.step(Event::EndOfStream), Action::Connect));
    assert_eq!(w.state, ConnState::Connecting);
    w.step(Event::Connected);
    w.step(Event::Subscribed);
    assert!(matches!(w.step(Event::ReceiveFailed), Action::Connect));
    assert_eq!(w.state, ConnState::Connecting);
}

#[test]
fn interrupt_stops_in_every_state() {
    let prefixes: Vec<Vec<Event>> = vec![
        vec![],
        vec![Event::Resume],
        vec![Event::Resume, Event::Connected],
        vec![Event::Resume, Event::Connected, Event::Subscribed],
        vec![Event::Resume, Event::Connected, Event::Subscribed, Event::Notification("p".to_string())],
    ];
    for prefix in prefixes {
        let mut w = stock_worker(0);
        for e in prefix {
            w.step(e);
        }
        assert!(matches!(w.step(Event::Interrupted), Action::Exit));
        assert_eq!(w.state, ConnState::Stopped);
        assert!(matches!(w.step(Event::Resume), Action::Exit));
        assert_eq!(w.state, ConnState::Stopped);
    }
}

#[test]
fn unexpected_event_backs_off() {
    let mut w = stock_worker(0);
    listening(&mut w);
    assert!(matches!(w.step(Event::Connected), Action::Backoff { seconds: 5 }));
    assert_eq!(w.state, ConnState::Disconnected);
    assert!(matches!(w.step(Event::Published), Action::Backoff { seconds: 5 }));
    assert_eq!(w.state, ConnState::Disconnected);
}

#[test]
fn statements_are_exact() {
    assert_eq!(listen_statement("checkout"), "LISTEN checkout");
    assert_eq!(listen_statement(""), "LISTEN ");
    assert_eq!(notify_statement("out"), "SELECT pg_notify('out', $1)");
}
