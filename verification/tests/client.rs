use std::sync::Arc;

use zed::client::connection::{
    ConnectionId, EstablishConnectionError, PeerId, Status, WebsocketError,
};
use zed::client::link::{admin_api_token, always_active, parse_zed_link, ZED_URL_SCHEME};
use zed::client::models::ModelRegistry;
use zed::client::requests::{respond_to_request, Reply};
use zed::client::router::{
    response_payload, Client, ClientError, Envelope, HandlerKind, MessageAction, ReplyKind,
};

const TEST_MODEL: u64 = 7;
const JOIN_PROJECT: u64 = 40;
const PING: u64 = 41;

fn new_client() -> Client<&'static str, u32> {
    Client::new(Arc::new("http://localhost"))
}

fn join_project(project_id: u64, payload: u32) -> Envelope<u32> {
    Envelope {
        payload_type_id: JOIN_PROJECT,
        payload_type_name: "JoinProject".to_string(),
        original_sender_id: None,
        remote_entity_id: project_id,
        payload,
    }
}

fn ping(payload: u32) -> Envelope<u32> {
    Envelope {
        payload_type_id: PING,
        payload_type_name: "Ping".to_string(),
        original_sender_id: Some(PeerId { owner_id: 1, id: 2 }),
        remote_entity_id: 0,
        payload,
    }
}

fn delivered(action: MessageAction<u32>) -> (u64, u64, u32) {
    match action {
        MessageAction::Handle { handler, subscriber, message } => {
            (handler.id, subscriber, message.payload)
        }
        other => panic!("not delivered: {:?}", other),
    }
}

fn unhandled(action: MessageAction<u32>) -> u32 {
    match action {
        MessageAction::RespondUnhandled { message } => message.payload,
        other => panic!("not refused: {:?}", other),
    }
}

#[test]
fn test_subscribing_to_entity() {
    let mut client = new_client();
    let mut live = ModelRegistry::new();
    client.add_model_message_handler(JOIN_PROJECT, TEST_MODEL, 100);
    live.insert(1);
    live.insert(2);
    live.insert(3);

    let pending1 = client.subscribe_to_entity(TEST_MODEL, 1).unwrap();
    let (_subscription1, waiting1) = pending1.set_model(&mut client, 1);
    let pending2 = client.subscribe_to_entity(TEST_MODEL, 2).unwrap();
    let (_subscription2, waiting2) = pending2.set_model(&mut client, 2);
    // Dropping a subscription for the same entity type still allows receiving of messages for
    // other entity ids of the same type.
    let pending3 = client.subscribe_to_entity(TEST_MODEL, 3).unwrap();
    let (subscription3, waiting3) = pending3.set_model(&mut client, 3);
    subscription3.drop(&mut client);
    assert!(waiting1.is_empty() && waiting2.is_empty() && waiting3.is_empty());

    assert_eq!(delivered(client.handle_message(join_project(1, 5), &live)), (100, 1, 5));
    assert_eq!(delivered(client.handle_message(join_project(2, 6), &live)), (100, 2, 6));
    assert_eq!(unhandled(client.handle_message(join_project(3, 7), &live)), 7);
}

#[test]
fn test_subscribing_after_dropping_subscription() {
    let mut client = new_client();
    let mut live = ModelRegistry::new();
    live.insert(9);
    let subscription1 = client.add_message_handler(PING, 9, 1);
    subscription1.drop(&mut client);
    assert!(!client.has_handler(PING));
    let _subscription2 = client.add_message_handler(PING, 9, 2);
    assert_eq!(delivered(client.handle_message(ping(3), &live)), (2, 9, 3));
}

#[test]
fn test_dropping_subscription_in_handler() {
    let mut client = new_client();
    let mut live = ModelRegistry::new();
    live.insert(9);
    let mut subscription = Some(client.add_message_handler(PING, 9, 1));
    let action = client.handle_message(ping(3), &live);
    if let MessageAction::Handle { .. } = &action {
        subscription.take().unwrap().drop(&mut client);
    }
    assert_eq!(delivered(action), (1, 9, 3));
    assert!(subscription.is_none());
    assert_eq!(unhandled(client.handle_message(ping(4), &live)), 4);
}

#[test]
fn pending_messages_are_delivered_in_order() {
    let mut client = new_client();
    let mut live = ModelRegistry::new();
    live.insert(5);
    client.add_model_request_handler(JOIN_PROJECT, TEST_MODEL, 100);
    let pending = client.subscribe_to_entity(TEST_MODEL, 1).unwrap();
    for payload in 10..13 {
        let action = client.handle_message(join_project(1, payload), &live);
        assert!(matches!(action, MessageAction::Queued));
    }
    let (_subscription, waiting) = pending.set_model(&mut client, 5);
    let delivered: Vec<_> = waiting
        .into_iter()
        .map(|message| delivered(client.handle_message(message, &live)))
        .collect();
    assert_eq!(delivered, vec![(100, 5, 10), (100, 5, 11), (100, 5, 12)]);
}

#[test]
fn pending_messages_are_refused_without_a_live_model() {
    let mut client = new_client();
    let live = ModelRegistry::new();
    client.add_model_message_handler(JOIN_PROJECT, TEST_MODEL, 100);
    let pending = client.subscribe_to_entity(TEST_MODEL, 1).unwrap();
    client.handle_message(join_project(1, 1), &live);
    let (_subscription, waiting) = pending.set_model(&mut client, 5);
    for message in waiting {
        assert_eq!(unhandled(client.handle_message(message, &live)), 1);
    }
}

#[test]
fn handlers_change_what_becomes_of_later_messages() {
    let mut client = new_client();
    let mut live = ModelRegistry::new();
    live.insert(5);
    client.add_model_message_handler(JOIN_PROJECT, TEST_MODEL, 100);
    let pending = client.subscribe_to_entity(TEST_MODEL, 1).unwrap();
    for payload in 1..4 {
        client.handle_message(join_project(1, payload), &live);
    }
    let (subscription, waiting) = pending.set_model(&mut client, 5);
    let mut subscription = Some(subscription);
    let mut outcomes = Vec::new();
    for message in waiting {
        match client.handle_message(message, &live) {
            MessageAction::Handle { message, .. } => {
                outcomes.push((message.payload, true));
                // The handler of the first message ends the subscription.
                subscription.take().unwrap().drop(&mut client);
            }
            other => outcomes.push((unhandled(other), false)),
        }
    }
    assert_eq!(outcomes, vec![(1, true), (2, false), (3, false)]);
}

#[test]
fn dropping_a_pending_subscription_returns_its_messages() {
    let mut client = new_client();
    let live = ModelRegistry::new();
    client.add_model_message_handler(JOIN_PROJECT, TEST_MODEL, 100);
    let pending = client.subscribe_to_entity(TEST_MODEL, 1).unwrap();
    client.handle_message(join_project(1, 4), &live);
    client.handle_message(join_project(1, 5), &live);
    let dropped = pending.drop(&mut client);
    assert_eq!(dropped.iter().map(|m| m.payload).collect::<Vec<_>>(), vec![4, 5]);
    assert!(client.subscribe_to_entity(TEST_MODEL, 1).is_ok());
}

#[test]
fn entities_are_subscribed_to_once() {
    let mut client = new_client();
    let _pending = client.subscribe_to_entity(TEST_MODEL, 1).unwrap();
    let error = client.subscribe_to_entity(TEST_MODEL, 1).unwrap_err();
    assert_eq!(error, ClientError::AlreadySubscribed);
    assert_eq!(error.message(), "already subscribed to entity");
    // The same id of another type is another entity.
    assert!(client.subscribe_to_entity(TEST_MODEL + 1, 1).is_ok());
    assert!(client.subscribe_to_entity(u64::MAX, u64::MAX).is_ok());
}

#[test]
fn live_model_comes_before_the_entity() {
    let mut client = new_client();
    let mut live = ModelRegistry::new();
    live.insert(1);
    live.insert(2);
    client.add_model_message_handler(JOIN_PROJECT, TEST_MODEL, 100);
    let pending = client.subscribe_to_entity(TEST_MODEL, 1).unwrap();
    let (_subscription, _) = pending.set_model(&mut client, 1);
    // Give the message type a model of its own.
    let entity_types = JOIN_PROJECT;
    zed::client::router::Subscription::Message { id: entity_types }.drop(&mut client);
    let _handler = client.add_request_handler(JOIN_PROJECT, 2, 200);
    match client.handle_message(join_project(1, 8), &live) {
        MessageAction::Handle { handler, subscriber, .. } => {
            assert_eq!(handler.kind, HandlerKind::Request);
            assert_eq!((handler.id, subscriber), (200, 2));
        }
        other => panic!("not delivered: {:?}", other),
    }
    live.release(2);
    assert_eq!(unhandled(client.handle_message(join_project(1, 9), &live)), 9);
}

#[test]
fn teardown_forgets_handlers_and_subscribers() {
    let mut client = new_client();
    let mut live = ModelRegistry::new();
    live.insert(9);
    client.add_message_handler(PING, 9, 1);
    client.add_model_message_handler(JOIN_PROJECT, TEST_MODEL, 2);
    let pending = client.subscribe_to_entity(TEST_MODEL, 1).unwrap();
    assert!(client.is_pending(&pending));
    client.teardown();
    assert!(!client.is_pending(&pending));
    assert_eq!(unhandled(client.handle_message(ping(1), &live)), 1);
    assert_eq!(unhandled(client.handle_message(join_project(1, 2), &live)), 2);
    assert!(client.subscribe_to_entity(TEST_MODEL, 1).is_ok());
}

#[test]
fn sending_needs_a_connection() {
    let mut client = new_client();
    assert_eq!(client.status(), Status::SignedOut);
    assert!(client.status().is_signed_out());
    assert_eq!(client.peer_id(), None);
    let error = client.send(1u8).unwrap_err();
    assert_eq!(error, ClientError::NotConnected);
    assert_eq!(error.message(), "not connected");
    assert!(client.request(1u8).is_err());

    let peer_id = PeerId { owner_id: 3, id: 4 };
    let connection_id = ConnectionId { owner_id: 5, id: 6 };
    client.set_status(Status::Connected { peer_id, connection_id });
    assert!(client.status().is_connected());
    assert_eq!(client.peer_id(), Some(peer_id));
    assert_eq!(client.connection_id(), Ok(connection_id));
    let sent = client.send("hello").unwrap();
    assert_eq!((sent.connection_id, sent.reply, sent.message), (connection_id, ReplyKind::Nothing, "hello"));
    assert_eq!(client.request(1u8).unwrap().reply, ReplyKind::Response);
    assert_eq!(client.request_envelope(1u8).unwrap().reply, ReplyKind::Response);
    assert_eq!(client.request_stream(1u8).unwrap().reply, ReplyKind::Stream);
    assert!(!Status::ReconnectionError { next_reconnection: 1 }.is_connected());
    assert!(Status::UpgradeRequired.is_signed_out());
}

#[test]
fn client_id_and_http_client() {
    let mut client = new_client();
    assert_eq!(client.id(), 0);
    client.set_id(12);
    assert_eq!(client.id(), 12);
    assert_eq!(*client.http_client(), "http://localhost");
}

#[test]
fn responses_carry_payloads() {
    assert_eq!(response_payload::<u32, String>(Ok(ping(3))), Ok(3));
    assert_eq!(response_payload::<u32, u8>(Err(9)), Err(9));
}

#[test]
fn replies_to_requests() {
    let (reply, pending) = respond_to_request::<u8, &str>(Ok(4));
    assert!(matches!(reply, Reply::Respond(4)));
    assert_eq!(pending.finish(Ok(())), Ok(()));

    let (reply, pending) = respond_to_request::<u8, &str>(Err("failed"));
    assert!(matches!(reply, Reply::RespondWithError));
    assert_eq!(pending.error(), Some(&"failed"));
    assert_eq!(pending.finish(Ok(())), Err("failed"));

    let (_, pending) = respond_to_request::<u8, &str>(Err("failed"));
    assert_eq!(pending.finish(Err("not sent")), Err("not sent"));
    let (_, pending) = respond_to_request::<u8, &str>(Ok(4));
    assert_eq!(pending.finish(Err("not sent")), Err("not sent"));
}

#[test]
fn handshake_errors() {
    let error = |http_status| WebsocketError { http_status, message: "no".to_string() };
    assert!(matches!(
        EstablishConnectionError::from(error(Some(401))),
        EstablishConnectionError::Unauthorized
    ));
    assert!(matches!(
        EstablishConnectionError::from(error(Some(426))),
        EstablishConnectionError::UpgradeRequired
    ));
    for status in [None, Some(400), Some(500)] {
        match EstablishConnectionError::from(error(status)) {
            EstablishConnectionError::Other(message) => assert_eq!(message, "no"),
            other => panic!("{:?}", other),
        }
    }
    match EstablishConnectionError::other("x".to_string()) {
        EstablishConnectionError::Other(message) => assert_eq!(message, "x"),
        other => panic!("{:?}", other),
    }
}

#[test]
fn connection_errors_in_words() {
    let words = |error: EstablishConnectionError| error.message();
    assert_eq!(words(EstablishConnectionError::UpgradeRequired), "upgrade required");
    assert_eq!(words(EstablishConnectionError::Unauthorized), "unauthorized");
    assert_eq!(words(EstablishConnectionError::other("odd".to_string())), "odd");
    assert_eq!(words(EstablishConnectionError::Http("http".to_string())), "http");
    assert_eq!(words(EstablishConnectionError::Io("io".to_string())), "io");
    assert_eq!(words(EstablishConnectionError::Websocket("ws".to_string())), "ws");
}

#[test]
fn zed_links() {
    assert_eq!(ZED_URL_SCHEME, "zed");
    assert_eq!(parse_zed_link("zed://channel/1"), Some("channel/1"));
    assert_eq!(parse_zed_link("zed://"), Some(""));
    assert_eq!(parse_zed_link("zed:/x"), None);
    assert_eq!(parse_zed_link("https://zed.dev"), None);
    assert_eq!(parse_zed_link("zed"), None);
    assert_eq!(parse_zed_link("zed://\u{e9}t\u{e9}"), Some("\u{e9}t\u{e9}"));
}

#[test]
fn settings_from_the_environment() {
    assert_eq!(admin_api_token(None), None);
    assert_eq!(admin_api_token(Some(String::new())), None);
    assert_eq!(admin_api_token(Some("t".to_string())), Some("t".to_string()));
    assert!(!always_active(None));
    assert!(!always_active(Some(String::new())));
    assert!(always_active(Some("1".to_string())));
}
