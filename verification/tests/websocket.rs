use little_stomper::frame_handler::{FrameHandler, FrameHandlerImpl};
use little_stomper::destinations::{DestinationId, SubscriptionId};
use little_stomper::frame::model::StompVersion;
use little_stomper::session::{ClientRequest, Effect};
use little_stomper::websocket::{handle_message, WsMessage, WsReply};

#[test]
fn message_hander_handles_ping() {
    let decision = handle_message(WsMessage::Ping(b"0".to_vec()));
    match decision.send_back {
        Some(WsReply::Pong(bytes)) => assert_eq!(b"0".to_vec(), bytes),
        _ => panic!("Ping did not Pong!"),
    }
    assert_eq!(Ok(None), decision.result);
    assert_eq!("Unable to send return message", decision.on_send_failure.expect("failure error").message);
}

#[test]
fn text_carries_its_bytes() {
    let decision = handle_message(WsMessage::Text("CONNECT\n\n\u{0}".to_owned()));
    assert!(decision.send_back.is_none());
    assert_eq!(Ok(Some(b"CONNECT\n\n\x00".to_vec())), decision.result);
}

#[test]
fn binary_carries_its_bytes() {
    let decision = handle_message(WsMessage::Binary(vec![1, 2, 3]));
    assert_eq!(Ok(Some(vec![1, 2, 3])), decision.result);
}

#[test]
fn pong_carries_nothing() {
    let decision = handle_message(WsMessage::Pong(vec![9]));
    assert!(decision.send_back.is_none());
    assert_eq!(Ok(None), decision.result);
}

#[test]
fn close_is_forwarded_and_ends_stream() {
    let decision = handle_message(WsMessage::Close);
    assert!(matches!(decision.send_back, Some(WsReply::ForwardClose)));
    assert_eq!("WebSocketChannel closed", decision.result.unwrap_err().message);
}

#[test]
fn frame_handler_confirms_supported_connect() {
    let (result, effects) = FrameHandlerImpl {}.handle(ClientRequest::Connect {
        accept_version: vec![Some(StompVersion::V1_0), Some(StompVersion::V1_2)],
        heartbeat_supplied: 0,
        heartbeat_expected: 1000,
        login: None,
        passcode: None,
    });
    assert_eq!(Ok(true), result);
    assert_eq!(1, effects.len());
    assert!(matches!(effects[0], Effect::ConfirmConnect { result: Ok(()), .. }));
}

#[test]
fn frame_handler_refuses_unsupported_connect() {
    let (result, effects) = FrameHandlerImpl {}.handle(ClientRequest::Connect {
        accept_version: vec![Some(StompVersion::V1_0), Some(StompVersion::V1_1)],
        heartbeat_supplied: 0,
        heartbeat_expected: 0,
        login: None,
        passcode: None,
    });
    assert_eq!(Ok(true), result);
    match &effects[0] {
        Effect::ConfirmConnect { result: Err(err), .. } => {
            assert_eq!("Unavailable Version accept-version:1.0,1.1 requested.", err.message)
        }
        _ => panic!("expected a refusal"),
    }
}

#[test]
fn frame_handler_passes_subscribe_and_disconnects() {
    let (result, effects) = FrameHandlerImpl {}.handle(ClientRequest::Subscribe {
        destination: DestinationId::from("foo"),
        id: SubscriptionId::from("bar"),
    });
    assert_eq!(Ok(true), result);
    assert!(matches!(&effects[..], [Effect::Subscribe { .. }]));
    let (result, effects) = FrameHandlerImpl {}.handle(ClientRequest::Disconnect);
    assert_eq!(Ok(false), result);
    assert!(effects.is_empty());
}
