//! The decisions for messages arriving on a WebSocket that carries STOMP.
use crate::error::StomperError;
use vstd::prelude::*;

verus! {

/// A WebSocket message, as far as the STOMP transport reads it.
pub enum WsMessage {
    Text(String),
    Binary(Vec<u8>),
    Ping(Vec<u8>),
    Pong(Vec<u8>),
    Close,
}

/// What to send back on the WebSocket.
pub enum WsReply {
    /// Answer a ping with a pong carrying the same bytes.
    Pong(Vec<u8>),
    /// Forward the close message, so that the writing side stops.
    ForwardClose,
}

/// How a WebSocket message is handled: what to send back, if anything, the
/// bytes for STOMP (or an error), and the error to report instead if sending
/// back fails.
pub struct WsDecision {
    pub send_back: Option<WsReply>,
    pub result: Result<Option<Vec<u8>>, StomperError>,
    pub on_send_failure: Option<StomperError>,
}

/// The bytes of a text message are its UTF-8 encoding.
pub open spec fn text_bytes(s: String) -> Seq<u8> {
    vstd::utf8::encode_utf8(s@)
}

/// Decides how a WebSocket message is handled: text and binary messages
/// carry STOMP bytes; a ping is answered with a pong and carries nothing,
/// failing if the pong cannot be sent; a pong carries nothing; a close is
/// forwarded and ends the stream with an error.
pub fn handle_message(msg: WsMessage) -> (d: WsDecision)
    ensures
        match msg {
            WsMessage::Text(text) => d.send_back is None && (d.result matches Ok(Some(bytes)) && bytes@
                == text_bytes(text)),
            WsMessage::Binary(bytes) => d.send_back is None && d.result == Ok::<Option<Vec<u8>>, StomperError>(Some(bytes)),
            WsMessage::Ping(bytes) => d.send_back == Some(WsReply::Pong(bytes)) && d.result
                == Ok::<Option<Vec<u8>>, StomperError>(None) && (d.on_send_failure matches Some(e)
                && e.message@ == "Unable to send return message"@),
            WsMessage::Pong(_) => d.send_back is None && d.result == Ok::<Option<Vec<u8>>, StomperError>(None),
            WsMessage::Close => d.send_back == Some(WsReply::ForwardClose) && d.on_send_failure is None
                && (d.result matches Err(e) && e.message@ == "WebSocketChannel closed"@),
        },
{
    match msg {
        WsMessage::Ping(bytes) => WsDecision {
            send_back: Some(WsReply::Pong(bytes)),
            result: Ok(None),
            on_send_failure: Some(StomperError::new("Unable to send return message")),
        },
        WsMessage::Pong(_) => WsDecision { send_back: None, result: Ok(None), on_send_failure: None },
        WsMessage::Close => WsDecision {
            send_back: Some(WsReply::ForwardClose),
            result: Err(StomperError::new("WebSocketChannel closed")),
            on_send_failure: None,
        },
        WsMessage::Text(text) => {
            let bytes = vstd::slice::slice_to_vec(text.as_str().as_bytes());
            WsDecision { send_back: None, result: Ok(Some(bytes)), on_send_failure: None }
        },
        WsMessage::Binary(bytes) => WsDecision { send_back: None, result: Ok(Some(bytes)), on_send_failure: None },
    }
}

} // verus!
