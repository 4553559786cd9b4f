use little_stomper::client::DEFAULT_SERVER;
use little_stomper::codec::{client_event, parsed_event, reply_bytes};
use little_stomper::destinations::{DestinationId, MessageId, OutboundMessage, SubscriptionId};
use little_stomper::error::StomperError;
use little_stomper::frame::model::StompVersion as LibVersion;
use little_stomper::session::{
    ClientRequest, ClientState, ConnectedClient, Effect, Reply, ServerFrameData, SessionEvent, SessionPhase,
    SessionState, Step,
};
use std::convert::TryFrom;
use stomp_parser::client::{
    ConnectFrameBuilder, DisconnectFrameBuilder, SendFrameBuilder, SubscribeFrameBuilder, UnsubscribeFrameBuilder,
};
use stomp_parser::headers::{HeartBeatIntervals, StompVersion, StompVersions};
use stomp_parser::server::ServerFrame;

fn connect_bytes(versions: Vec<StompVersion>, supplied: u32, expected: u32) -> Vec<u8> {
    ConnectFrameBuilder::new("here".to_owned(), StompVersions(versions))
        .heartbeat(HeartBeatIntervals::new(supplied, expected))
        .build()
        .into()
}

fn default_client() -> ConnectedClient {
    ConnectedClient { server: Some(DEFAULT_SERVER.to_owned()), session: None }
}

/// A session that has received a CONNECT frame with the given heart-beats
/// and has been told that the client connected.
fn connected_session(supplied: u32, expected: u32) -> (SessionState, Step) {
    let mut session = SessionState::new();
    let step = session.handle_event(client_event(connect_bytes(vec![StompVersion::V1_2], supplied, expected)));
    assert!(step.reply.is_none());
    let step = session.handle_event(SessionEvent::Connected(Ok(default_client())));
    (session, step)
}

fn error_message(reply: &Option<Reply>) -> Option<String> {
    match reply {
        Some(Reply::Frame(ServerFrameData::Error { message })) => Some(message.clone()),
        _ => None,
    }
}

fn is_error_frame(bytes: Vec<u8>) -> bool {
    matches!(ServerFrame::try_from(bytes), Ok(ServerFrame::Error(_)))
}

#[test]
fn connect_defaults() {
    let mut session = SessionState::new();
    let step = session.handle_event(client_event(
        ConnectFrameBuilder::new("here".to_owned(), StompVersions(vec![StompVersion::V1_2])).build().into(),
    ));
    assert_eq!(ClientState::Alive, step.state);
    assert_eq!(1, step.effects.len());
    match &step.effects[0] {
        Effect::ConfirmConnect { result, login, passcode } => {
            assert!(result.is_ok());
            assert!(login.is_none());
            assert!(passcode.is_none());
        }
        _ => panic!("expected the connection to be confirmed"),
    }

    let step = session.handle_event(SessionEvent::Connected(Ok(default_client())));
    assert!(step.effects.is_empty());
    let bytes = reply_bytes(step.reply.expect("CONNECTED frame"));
    match ServerFrame::try_from(bytes) {
        Ok(ServerFrame::Connected(connected)) => {
            assert_eq!(&stomp_parser::headers::StompVersion::V1_2, connected.version().value());
            assert_eq!("little-stomper/0.3.0", connected.server().expect("server header").value());
            assert!(connected.session().is_none());
            assert_eq!(&HeartBeatIntervals::default(), connected.heartbeat().expect("heart-beat header").value());
        }
        _ => panic!("expected a CONNECTED frame"),
    }
}

#[test]
fn connect_passes_credentials() {
    let mut session = SessionState::new();
    let bytes: Vec<u8> = ConnectFrameBuilder::new("here".to_owned(), StompVersions(vec![StompVersion::V1_2]))
        .login("log1n".to_owned())
        .passcode("passc0de".to_owned())
        .build()
        .into();
    let step = session.handle_event(client_event(bytes));
    match &step.effects[0] {
        Effect::ConfirmConnect { result, login, passcode } => {
            assert!(result.is_ok());
            assert_eq!(Some("log1n".to_owned()), *login);
            assert_eq!(Some("passc0de".to_owned()), *passcode);
        }
        _ => panic!("expected the connection to be confirmed"),
    }
}

#[test]
fn connect_accepts_supplied_heartbeat() {
    let (session, step) = connected_session(5000, 0);
    assert_eq!(SessionPhase::Open, session.phase());
    match ServerFrame::try_from(reply_bytes(step.reply.expect("CONNECTED frame"))) {
        Ok(ServerFrame::Connected(connected)) => {
            let hb = connected.heartbeat().expect("Heartbeat not provided");
            assert_eq!(0, hb.value().supplied);
            assert_eq!(5000, hb.value().expected);
        }
        _ => panic!("expected a CONNECTED frame"),
    }
    assert_eq!(1, step.effects.len());
    assert!(matches!(step.effects[0], Effect::WatchClient { timeout_millis: 6000 }));
}

#[test]
fn connect_accepts_expected_heartbeat() {
    let mut session = SessionState::new();
    let step = session.handle_event(client_event(connect_bytes(vec![StompVersion::V1_2], 0, 5000)));
    assert_eq!(2, step.effects.len());
    assert!(matches!(step.effects[1], Effect::StartHeartbeat { period_millis: 5000 }));

    let step = session.handle_event(SessionEvent::Connected(Ok(default_client())));
    assert!(step.effects.is_empty());
    match ServerFrame::try_from(reply_bytes(step.reply.expect("CONNECTED frame"))) {
        Ok(ServerFrame::Connected(connected)) => {
            let hb = connected.heartbeat().expect("Heartbeat not provided");
            assert_eq!(5000, hb.value().supplied);
            assert_eq!(0, hb.value().expected);
        }
        _ => panic!("expected a CONNECTED frame"),
    }
}

#[test]
fn server_sends_requested_heartbeat() {
    let (mut session, _) = connected_session(0, 5000);
    let step = session.handle_event(SessionEvent::Heartbeat);
    assert_eq!(ClientState::Alive, step.state);
    assert!(matches!(step.reply, Some(Reply::Heartbeat)));
    assert_eq!(b"\n".to_vec(), reply_bytes(step.reply.unwrap()));
    let step = session.handle_event(SessionEvent::Heartbeat);
    assert!(matches!(step.reply, Some(Reply::Heartbeat)));
}

#[test]
fn unsupported_stomp_version() {
    let mut session = SessionState::new();
    let step = session.handle_event(client_event(connect_bytes(vec![StompVersion::V1_1], 0, 0)));
    assert!(step.reply.is_none());
    let refusal = match &step.effects[0] {
        Effect::ConfirmConnect { result: Err(err), .. } => err.clone(),
        _ => panic!("expected the connection to be refused"),
    };
    assert_eq!("Unavailable Version accept-version:1.1 requested.", refusal.message);

    let step = session.handle_event(SessionEvent::Connected(Err(refusal)));
    assert_eq!(Some("Unable to initialise session, connect failed".to_owned()), error_message(&step.reply));
    assert!(is_error_frame(reply_bytes(step.reply.unwrap())));
    assert!(matches!(step.effects[..], [Effect::CloseAfter { millis: 5000 }]));
    assert_eq!(SessionPhase::Closing, session.phase());

    let step = session.handle_event(SessionEvent::LingerElapsed);
    assert_eq!(ClientState::Dead, step.state);
    assert_eq!(SessionPhase::Closed, session.phase());
}

#[test]
fn first_message_not_frame() {
    let mut session = SessionState::new();
    let step = session.handle_event(client_event(b"\n".to_vec()));
    assert_eq!(Some("Expected a CONNECT frame".to_owned()), error_message(&step.reply));
    assert!(is_error_frame(reply_bytes(step.reply.unwrap())));
    assert!(matches!(step.effects[..], [Effect::CloseAfter { millis: 5000 }]));
    assert_eq!(ClientState::Alive, step.state);
    let step = session.handle_event(SessionEvent::LingerElapsed);
    assert_eq!(ClientState::Dead, step.state);
}

#[test]
fn first_message_not_connect() {
    let mut session = SessionState::new();
    let step = session.handle_event(client_event(
        SubscribeFrameBuilder::new("foo".to_owned(), "MySub".to_owned()).build().into(),
    ));
    assert_eq!(Some("Expected a CONNECT frame".to_owned()), error_message(&step.reply));
    assert_eq!(SessionPhase::Closing, session.phase());
    // Nothing more is answered while the connection lingers.
    let step = session.handle_event(client_event(connect_bytes(vec![StompVersion::V1_2], 0, 0)));
    assert!(step.reply.is_none());
    assert!(step.effects.is_empty());
    let step = session.handle_event(SessionEvent::Close);
    assert_eq!(ClientState::Dead, step.state);
}

#[test]
fn error_after_missed_heartbeat() {
    let (mut session, _) = connected_session(5000, 0);
    let step = session.handle_event(SessionEvent::ClientHeartbeatMissed);
    assert_eq!(Some("Client heart-beat not received in time".to_owned()), error_message(&step.reply));
    assert!(matches!(step.effects[..], [Effect::CloseAfter { millis: 5000 }]));
    assert_eq!(ClientState::Alive, step.state);
    // The connection lingers, then closes.
    let step = session.handle_event(SessionEvent::Heartbeat);
    assert!(step.reply.is_none());
    let step = session.handle_event(SessionEvent::LingerElapsed);
    assert_eq!(ClientState::Dead, step.state);
}

#[test]
fn heartbeat_delays_error() {
    let (mut session, _) = connected_session(5000, 0);
    let step = session.handle_event(client_event(b"\n".to_vec()));
    assert!(step.reply.is_none());
    assert!(matches!(step.effects[..], [Effect::WatchClient { timeout_millis: 6000 }]));
    let step = session.handle_event(client_event(b"\r\n".to_vec()));
    assert!(matches!(step.effects[..], [Effect::WatchClient { timeout_millis: 6000 }]));
}

#[test]
fn frame_delays_error() {
    let (mut session, _) = connected_session(5000, 0);
    let step = session.handle_event(client_event(
        SubscribeFrameBuilder::new("foo".to_owned(), "MySub".to_owned()).build().into(),
    ));
    assert!(step.reply.is_none());
    assert_eq!(2, step.effects.len());
    match &step.effects[0] {
        Effect::Subscribe { destination, client_subscription_id } => {
            assert_eq!("foo", destination.as_str());
            assert_eq!("MySub", client_subscription_id.as_str());
        }
        _ => panic!("expected a subscription"),
    }
    assert!(matches!(step.effects[1], Effect::WatchClient { timeout_millis: 6000 }));
}

#[test]
fn no_watch_without_client_heartbeat() {
    let (mut session, step) = connected_session(0, 0);
    assert!(step.effects.is_empty());
    let step = session.handle_event(client_event(b"\n".to_vec()));
    assert!(step.effects.is_empty());
    assert_eq!(SessionPhase::Open, session.phase());
}

#[test]
fn server_sends_message_to_subscriber() {
    let (mut session, _) = connected_session(0, 5000);
    let message = OutboundMessage {
        destination: DestinationId::from("foo"),
        message_id: MessageId::from("msg-1"),
        body: b"Hello, World".to_vec(),
    };
    let step = session.handle_event(SessionEvent::ServerMessage(SubscriptionId::from("MySub"), message));
    assert!(matches!(step.effects[..], [Effect::ResetHeartbeat]));
    match &step.reply {
        Some(Reply::Frame(ServerFrameData::Message { content_length, .. })) => assert_eq!(12, *content_length),
        _ => panic!("expected a MESSAGE frame"),
    }
    match ServerFrame::try_from(reply_bytes(step.reply.unwrap())) {
        Ok(ServerFrame::Message(frame)) => {
            assert_eq!("msg-1", frame.message_id().value());
            assert_eq!("foo", frame.destination().value());
            assert_eq!("MySub", frame.subscription().value());
            assert_eq!("text/plain", frame.content_type().expect("content type").value());
            assert_eq!(&12, frame.content_length().expect("content length").value());
            assert_eq!(Some(&b"Hello, World"[..]), frame.body());
        }
        _ => panic!("expected a MESSAGE frame"),
    }
}

#[test]
fn send_frame_goes_to_destination() {
    let (mut session, _) = connected_session(0, 0);
    let bytes: Vec<u8> = SendFrameBuilder::new("somedest".to_owned()).body(b"Hello, World".to_vec()).build().into();
    let step = session.handle_event(client_event(bytes));
    assert!(step.reply.is_none());
    match &step.effects[..] {
        [Effect::Send { destination, message }] => {
            assert_eq!("somedest", destination.as_str());
            assert!(message.sender_message_id.is_none());
            assert_eq!(b"Hello, World".to_vec(), message.body);
        }
        _ => panic!("expected a send"),
    }
}

#[test]
fn unsubscribe_cancels_confirmed_subscription() {
    let (mut session, _) = connected_session(0, 0);
    let step = session.handle_event(SessionEvent::Subscribed(
        DestinationId::from("foo"),
        SubscriptionId::from("MySub"),
        Ok(SubscriptionId::from("dest-sub-7")),
    ));
    assert!(step.reply.is_none());
    assert!(step.effects.is_empty());

    let step = session.handle_event(client_event(UnsubscribeFrameBuilder::new("MySub".to_owned()).build().into()));
    assert!(step.reply.is_none());
    match &step.effects[..] {
        [Effect::Unsubscribe { destination, destination_subscription_id }] => {
            assert_eq!("foo", destination.as_str());
            assert_eq!("dest-sub-7", destination_subscription_id.as_str());
        }
        _ => panic!("expected an unsubscription"),
    }

    let step = session.handle_event(SessionEvent::Unsubscribed(
        SubscriptionId::from("MySub"),
        Ok(SubscriptionId::from("dest-sub-7")),
    ));
    assert!(step.effects.is_empty());

    let step = session.handle_event(client_event(UnsubscribeFrameBuilder::new("MySub".to_owned()).build().into()));
    assert_eq!(
        Some("Attempt to unsubscribe from unknown subscription: MySub".to_owned()),
        error_message(&step.reply)
    );
    assert_eq!(ClientState::Alive, step.state);
}

#[test]
fn failed_subscription_is_not_recorded() {
    let (mut session, _) = connected_session(0, 0);
    session.handle_event(SessionEvent::Subscribed(
        DestinationId::from("foo"),
        SubscriptionId::from("MySub"),
        Err(StomperError::new("Subscribe failed")),
    ));
    let step = session.handle_event(SessionEvent::ClientFrame(Ok(ClientRequest::Unsubscribe {
        id: SubscriptionId::from("MySub"),
    })));
    assert_eq!(
        Some("Attempt to unsubscribe from unknown subscription: MySub".to_owned()),
        error_message(&step.reply)
    );
}

#[test]
fn disconnect_ends_session() {
    let (mut session, _) = connected_session(0, 0);
    let step = session.handle_event(client_event(DisconnectFrameBuilder::new("77".to_owned()).build().into()));
    assert_eq!(ClientState::Dead, step.state);
    assert!(step.reply.is_none());
    assert!(step.effects.is_empty());
    // A closed session stays closed.
    let step = session.handle_event(SessionEvent::Heartbeat);
    assert_eq!(ClientState::Dead, step.state);
    assert!(step.reply.is_none());
}

#[test]
fn close_ends_session() {
    let mut session = SessionState::new();
    let step = session.handle_event(SessionEvent::Close);
    assert_eq!(ClientState::Dead, step.state);
    assert_eq!(SessionPhase::Closed, session.phase());
}

#[test]
fn parse_error_is_reported() {
    let (mut session, _) = connected_session(0, 0);
    let step = session.handle_event(SessionEvent::ClientFrame(Err(StomperError::new("freaky"))));
    assert_eq!(
        Some("Error processing client message: StomperError { message: \"freaky\" }".to_owned()),
        error_message(&step.reply)
    );
    assert_eq!(ClientState::Alive, step.state);
}

#[test]
fn garbage_is_a_parse_error() {
    match client_event(b"NONSENSE\n\n\x00".to_vec()) {
        SessionEvent::ClientFrame(Err(_)) => {}
        _ => panic!("expected a parse error"),
    }
}

#[test]
fn error_event_is_forwarded() {
    let (mut session, _) = connected_session(0, 0);
    let step = session.handle_event(SessionEvent::Error("Boom".to_owned()));
    assert_eq!(Some("Boom".to_owned()), error_message(&step.reply));
    assert!(is_error_frame(reply_bytes(step.reply.unwrap())));
}

#[test]
fn client_event_reads_connect_frame() {
    let bytes: Vec<u8> =
        ConnectFrameBuilder::new("here".to_owned(), StompVersions(vec![StompVersion::V1_1, StompVersion::V1_2]))
            .heartbeat(HeartBeatIntervals::new(100, 200))
            .login("me".to_owned())
            .build()
            .into();
    match client_event(bytes) {
        SessionEvent::ClientFrame(Ok(ClientRequest::Connect {
            accept_version,
            heartbeat_supplied,
            heartbeat_expected,
            login,
            passcode,
        })) => {
            assert_eq!(vec![Some(LibVersion::V1_1), Some(LibVersion::V1_2)], accept_version);
            assert_eq!(100, heartbeat_supplied);
            assert_eq!(200, heartbeat_expected);
            assert_eq!(Some("me".to_owned()), login);
            assert_eq!(None, passcode);
        }
        _ => panic!("expected a CONNECT frame"),
    }
}

#[test]
fn parsed_event_carries_parser_message() {
    match parsed_event(Err("Poorly formatted heartbeats: x".to_owned())) {
        SessionEvent::ClientFrame(Err(err)) => assert_eq!("Poorly formatted heartbeats: x", err.message),
        _ => panic!("expected a parse error"),
    }
    assert!(matches!(parsed_event(Ok(ClientRequest::Disconnect)), SessionEvent::ClientFrame(Ok(ClientRequest::Disconnect))));
}

#[test]
fn error_reply_carries_message_header() {
    let (mut session, _) = connected_session(0, 0);
    let step = session.handle_event(SessionEvent::Error("Boom".to_owned()));
    match ServerFrame::try_from(reply_bytes(step.reply.unwrap())) {
        Ok(ServerFrame::Error(frame)) => assert_eq!("Boom", frame.message().expect("message header").value()),
        _ => panic!("expected an ERROR frame"),
    }
}

#[test]
fn reply_bytes_writes_frames_exactly() {
    assert_eq!(
        b"ERROR\nmessage:Boom\n\n\x00".to_vec(),
        reply_bytes(Reply::Frame(ServerFrameData::Error { message: "Boom".to_owned() }))
    );
    assert_eq!(
        b"CONNECTED\nversion:1.2\nheart-beat:0,5000\nserver:little-stomper/0.3.0\n\n\x00".to_vec(),
        reply_bytes(Reply::Frame(ServerFrameData::Connected {
            heartbeat_supplied: 0,
            heartbeat_expected: 5000,
            server: Some(DEFAULT_SERVER.to_owned()),
            session: None,
        }))
    );
    assert_eq!(
        b"CONNECTED\nversion:1.2\nheart-beat:10,20\nsession:s-1\nserver:me\n\n\x00".to_vec(),
        reply_bytes(Reply::Frame(ServerFrameData::Connected {
            heartbeat_supplied: 10,
            heartbeat_expected: 20,
            server: Some("me".to_owned()),
            session: Some("s-1".to_owned()),
        }))
    );
    assert_eq!(
        b"MESSAGE\nmessage-id:msg-1\ndestination:foo\nsubscription:MySub\ncontent-type:text/plain\ncontent-length:12\n\nHello, World\x00"
            .to_vec(),
        reply_bytes(Reply::Frame(ServerFrameData::Message {
            message_id: MessageId::from("msg-1"),
            destination: DestinationId::from("foo"),
            subscription: SubscriptionId::from("MySub"),
            content_length: 12,
            body: b"Hello, World".to_vec(),
        }))
    );
}

#[test]
fn refusal_names_accept_version_header() {
    let mut session = SessionState::new();
    let step = session.handle_event(client_event(connect_bytes(vec![StompVersion::V1_0, StompVersion::V1_1], 0, 0)));
    match &step.effects[0] {
        Effect::ConfirmConnect { result: Err(err), .. } => {
            assert_eq!("Unavailable Version accept-version:1.0,1.1 requested.", err.message)
        }
        _ => panic!("expected a refusal"),
    }
}
