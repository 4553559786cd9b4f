//! A stateless handler for client frames: what a frame asks of the client
//! and of the destinations, and whether the connection stays open.
use crate::destinations::InboundMessage;
use crate::error::StomperError;
use crate::session::{accepts, accepts_v1_2, refusal_error, refusal_message, refusal_unshowable, ClientRequest, Effect};
use vstd::prelude::*;

verus! {

/// Whether a frame is one the handler does not handle: an UNSUBSCRIBE, or a
/// transaction or acknowledgement frame.
pub open spec fn is_unhandled(frame: ClientRequest) -> bool {
    match frame {
        ClientRequest::Unsubscribe { .. } | ClientRequest::Abort | ClientRequest::Ack | ClientRequest::Begin
        | ClientRequest::Commit | ClientRequest::Nack => true,
        _ => false,
    }
}

/// Handles a client frame, returning whether the connection stays open and
/// what is to be done. UNSUBSCRIBE, transaction and acknowledgement frames are
/// not handled, nor a CONNECT frame that offers an unrecognised version and
/// not version 1.2, whose refusal cannot be written.
pub trait FrameHandler {
    fn handle(&self, frame: ClientRequest) -> (r: (Result<bool, StomperError>, Vec<Effect>))
        requires
            !is_unhandled(frame),
            !(frame matches ClientRequest::Connect { accept_version, .. } && refusal_unshowable(accept_version@)),
    ;
}

/// The handler of client frames.
pub struct FrameHandlerImpl {}

impl FrameHandler for FrameHandlerImpl {
    /// A CONNECT frame is confirmed to the client when it accepts version 1.2
    /// and refused otherwise; SUBSCRIBE and SEND are passed to the
    /// destinations; DISCONNECT closes the connection.
    fn handle(&self, frame: ClientRequest) -> (r: (Result<bool, StomperError>, Vec<Effect>))
        ensures
            match frame {
                ClientRequest::Connect { accept_version, login, passcode, .. } => {
                    &&& r.0 == Ok::<bool, StomperError>(true)
                    &&& r.1@.len() == 1
                    &&& r.1@[0] matches Effect::ConfirmConnect { result, login: l, passcode: p }
                    &&& l == login && p == passcode
                    &&& (result is Ok <==> accepts_v1_2(accept_version@))
                    &&& (result matches Err(err) ==> err.message@ == refusal_message(accept_version@))
                },
                ClientRequest::Subscribe { destination, id } => r.0 == Ok::<bool, StomperError>(true) && r.1@
                    == seq![Effect::Subscribe { destination, client_subscription_id: id }],
                ClientRequest::Send { destination, body } => r.0 == Ok::<bool, StomperError>(true) && r.1@
                    == seq![Effect::Send { destination, message: InboundMessage { sender_message_id: None, body } }],
                ClientRequest::Disconnect => r.0 == Ok::<bool, StomperError>(false) && r.1@.len() == 0,
                _ => false,
            },
    {
        let mut effects = Vec::new();
        match frame {
            ClientRequest::Connect { accept_version, login, passcode, .. } => {
                let result = if accepts(&accept_version) {
                    Ok(())
                } else {
                    Err(refusal_error(&accept_version))
                };
                effects.push(Effect::ConfirmConnect { result, login, passcode });
                (Ok(true), effects)
            },
            ClientRequest::Subscribe { destination, id } => {
                effects.push(Effect::Subscribe { destination, client_subscription_id: id });
                (Ok(true), effects)
            },
            ClientRequest::Send { destination, body } => {
                effects.push(Effect::Send { destination, message: InboundMessage { sender_message_id: None, body } });
                (Ok(true), effects)
            },
            _ => (Ok(false), effects),
        }
    }
}

} // verus!
