//! The decisions of a client session: what the server answers to each event
//! of a STOMP connection, which subscriptions it keeps, and what it asks the
//! destinations, the client factory and the timers to do.
use crate::destinations::{DestinationId, InboundMessage, MessageId, OutboundMessage, SubscriptionId};
use crate::error::{debug_str, spec_debug_str, StomperError};
use crate::frame::model::StompVersion;
use crate::table::Table;
use crate::timer::{can_happen, law_change_period_restarts, only_firings, TimerCommand, TimerEvent, TimerState};
use vstd::prelude::*;

verus! {

/// How long past the interval the client promised to supply heart-beats the
/// server waits before it gives up on the client.
pub const CLIENT_HEARTBEAT_GRACE_MILLIS: u64 = 1000;

/// How long the server keeps a connection open after sending an ERROR frame
/// that ends the session.
pub const ERROR_LINGER_MILLIS: u64 = 5000;

/// A frame sent by the client, holding what the session reads of it.
pub enum ClientRequest {
    /// `accept_version` holds `None` for a version that the parser did not recognise.
    Connect {
        accept_version: Vec<Option<StompVersion>>,
        heartbeat_supplied: u32,
        heartbeat_expected: u32,
        login: Option<String>,
        passcode: Option<String>,
    },
    Subscribe { destination: DestinationId, id: SubscriptionId },
    Send { destination: DestinationId, body: Vec<u8> },
    Unsubscribe { id: SubscriptionId },
    Disconnect,
    Abort,
    Ack,
    Begin,
    Commit,
    Nack,
}

/// What the client says about itself once connected.
pub struct ConnectedClient {
    pub server: Option<String>,
    pub session: Option<String>,
}

/// An event which a session can receive.
pub enum SessionEvent {
    /// A frame from the client, or the error met parsing it.
    ClientFrame(Result<ClientRequest, StomperError>),
    /// A heart-beat (an empty line) from the client.
    ClientHeartbeat,
    /// A message to deliver to the client, with the client's subscription id.
    ServerMessage(SubscriptionId, OutboundMessage),
    /// The result of subscribing the client to a destination, with the client's subscription id.
    Subscribed(DestinationId, SubscriptionId, Result<SubscriptionId, StomperError>),
    /// The result of unsubscribing, with the client's subscription id.
    Unsubscribed(SubscriptionId, Result<SubscriptionId, StomperError>),
    /// The result of connecting the client.
    Connected(Result<ConnectedClient, StomperError>),
    /// An error that should be communicated to the client.
    Error(String),
    /// Time to send a heart-beat to the client.
    Heartbeat,
    /// The client sent nothing for longer than its heart-beat interval allows.
    ClientHeartbeatMissed,
    /// The time to keep the connection open after a final error has passed.
    LingerElapsed,
    /// The client connection was closed.
    Close,
}

/// A frame the server sends.
pub enum ServerFrameData {
    /// A CONNECTED frame for version 1.2.
    Connected { heartbeat_supplied: u32, heartbeat_expected: u32, server: Option<String>, session: Option<String> },
    /// A MESSAGE frame with content type `text/plain`.
    Message {
        message_id: MessageId,
        destination: DestinationId,
        subscription: SubscriptionId,
        content_length: u32,
        body: Vec<u8>,
    },
    /// An ERROR frame.
    Error { message: String },
}

/// What the server sends to the client in answer to an event.
pub enum Reply {
    Frame(ServerFrameData),
    /// A heart-beat: an end of line.
    Heartbeat,
}

/// Work that the session asks the surrounding runtime to do.
pub enum Effect {
    /// Subscribe the client to a destination.
    Subscribe { destination: DestinationId, client_subscription_id: SubscriptionId },
    /// Cancel a destination's subscription.
    Unsubscribe { destination: DestinationId, destination_subscription_id: SubscriptionId },
    /// Send a message to a destination.
    Send { destination: DestinationId, message: InboundMessage },
    /// Confirm or refuse the connection; when confirmed the client is created
    /// from the credentials, and `Connected` reports the outcome.
    ConfirmConnect { result: Result<(), StomperError>, login: Option<String>, passcode: Option<String> },
    /// Send heart-beats to the client at this interval.
    StartHeartbeat { period_millis: u32 },
    /// Restart the interval before the next heart-beat to the client.
    ResetHeartbeat,
    /// Report `ClientHeartbeatMissed` unless the client is heard from within this time.
    WatchClient { timeout_millis: u64 },
    /// Report `LingerElapsed` after this time.
    CloseAfter { millis: u64 },
}

/// Whether the session goes on.
#[derive(Debug, PartialEq, Eq, Structural, Clone, Copy)]
pub enum ClientState {
    Alive,
    Dead,
}

/// Where a session stands.
#[derive(Debug, PartialEq, Eq, Structural, Clone, Copy)]
pub enum SessionPhase {
    /// Nothing but a CONNECT frame is accepted.
    AwaitingConnect,
    /// A CONNECT frame was received.
    Open,
    /// A final ERROR frame was sent; the connection closes after a while.
    Closing,
    /// The session has ended.
    Closed,
}

/// The outcome of one event.
pub struct Step {
    pub state: ClientState,
    pub reply: Option<Reply>,
    pub effects: Vec<Effect>,
}

/// The state of a session, as the contracts see it.
pub struct SessionView {
    pub phase: SessionPhase,
    /// The active subscriptions: the destination and the destination's
    /// subscription id, by the client's subscription id.
    pub subscriptions: Map<Seq<char>, (DestinationId, SubscriptionId)>,
    /// The heart-beat intervals of the last CONNECT frame: what the client
    /// supplies and what it expects.
    pub client_heartbeat: (u32, u32),
}

/// The state of a session.
pub struct SessionState {
    phase: SessionPhase,
    subscriptions: Table<(DestinationId, SubscriptionId)>,
    client_heartbeat: (u32, u32),
}

impl View for SessionState {
    type V = SessionView;

    closed spec fn view(&self) -> SessionView {
        SessionView {
            phase: self.phase,
            subscriptions: self.subscriptions@,
            client_heartbeat: self.client_heartbeat,
        }
    }
}

/// The name of a version, as `stomp_parser` displays it.
pub open spec fn version_text(v: StompVersion) -> Seq<char> {
    match v {
        StompVersion::V1_0 => "1.0"@,
        StompVersion::V1_1 => "1.1"@,
        StompVersion::V1_2 => "1.2"@,
    }
}

/// Whether every version of a list was recognised.
pub open spec fn all_known(vs: Seq<Option<StompVersion>>) -> bool {
    forall|i: int| 0 <= i < vs.len() ==> (#[trigger] vs[i]) is Some
}

/// The names of recognised versions, separated by commas.
pub open spec fn versions_joined(vs: Seq<Option<StompVersion>>) -> Seq<char>
    decreases vs.len(),
{
    if vs.len() == 0 {
        Seq::empty()
    } else if vs.len() == 1 {
        version_text(vs[0]->0)
    } else {
        versions_joined(vs.drop_last()) + ","@ + version_text(vs.last()->0)
    }
}

/// How `stomp_parser` shows (by `Debug`) an `accept-version` header holding
/// recognised versions: the header's name, `:`, and the versions separated
/// by commas. It cannot show an unrecognised version.
pub open spec fn accept_version_shown(vs: Seq<Option<StompVersion>>) -> Seq<char> {
    "accept-version:"@ + versions_joined(vs)
}

/// The message refusing a CONNECT frame that does not offer version 1.2.
pub open spec fn refusal_message(vs: Seq<Option<StompVersion>>) -> Seq<char> {
    "Unavailable Version "@ + accept_version_shown(vs) + " requested."@
}

/// Whether a CONNECT frame offering these versions must be refused with a
/// message that cannot be written: version 1.2 is not offered and some
/// version is not recognised.
pub open spec fn refusal_unshowable(vs: Seq<Option<StompVersion>>) -> bool {
    !accepts_v1_2(vs) && !all_known(vs)
}

/// Whether an event is a CONNECT frame whose refusal cannot be written.
pub open spec fn is_unshowable_connect(e: SessionEvent) -> bool {
    e matches SessionEvent::ClientFrame(Ok(ClientRequest::Connect { accept_version, .. })) && refusal_unshowable(
        accept_version@,
    )
}

/// Whether a client offering these versions can be served: version 1.2 is among them.
pub open spec fn accepts_v1_2(vs: Seq<Option<StompVersion>>) -> bool {
    exists|i: int| 0 <= i < vs.len() && vs[i] == Some(StompVersion::V1_2)
}

/// Whether an event is a client frame that an open session cannot handle
/// (transactions and acknowledgements).
pub open spec fn is_unsupported_frame(e: SessionEvent) -> bool {
    match e {
        SessionEvent::ClientFrame(Ok(ClientRequest::Abort)) => true,
        SessionEvent::ClientFrame(Ok(ClientRequest::Ack)) => true,
        SessionEvent::ClientFrame(Ok(ClientRequest::Begin)) => true,
        SessionEvent::ClientFrame(Ok(ClientRequest::Commit)) => true,
        SessionEvent::ClientFrame(Ok(ClientRequest::Nack)) => true,
        _ => false,
    }
}

/// Whether an event comes from the client: a frame, a parse error, or a heart-beat.
pub open spec fn is_client_input(e: SessionEvent) -> bool {
    e is ClientFrame || e is ClientHeartbeat
}

/// Whether a session accepts server events: it was not ended or ending.
pub open spec fn is_live(p: SessionPhase) -> bool {
    p == SessionPhase::AwaitingConnect || p == SessionPhase::Open
}

/// The phase after an event.
pub open spec fn spec_next_phase(s: SessionView, e: SessionEvent) -> SessionPhase {
    match s.phase {
        SessionPhase::Closed => SessionPhase::Closed,
        SessionPhase::Closing => match e {
            SessionEvent::LingerElapsed | SessionEvent::Close => SessionPhase::Closed,
            _ => SessionPhase::Closing,
        },
        SessionPhase::AwaitingConnect => match e {
            SessionEvent::Close => SessionPhase::Closed,
            SessionEvent::ClientFrame(Ok(ClientRequest::Connect { .. })) => SessionPhase::Open,
            SessionEvent::ClientFrame(_) | SessionEvent::ClientHeartbeat => SessionPhase::Closing,
            SessionEvent::Connected(Err(_)) => SessionPhase::Closing,
            SessionEvent::Connected(Ok(_)) => SessionPhase::Open,
            _ => SessionPhase::AwaitingConnect,
        },
        SessionPhase::Open => match e {
            SessionEvent::Close => SessionPhase::Closed,
            SessionEvent::ClientFrame(Ok(ClientRequest::Disconnect)) => SessionPhase::Closed,
            SessionEvent::Connected(Err(_)) => SessionPhase::Closing,
            SessionEvent::ClientHeartbeatMissed => SessionPhase::Closing,
            _ => SessionPhase::Open,
        },
    }
}

/// The subscriptions after an event: a confirmed subscription is recorded, a
/// confirmed cancellation forgets it; nothing else changes them.
pub open spec fn spec_next_subscriptions(s: SessionView, e: SessionEvent) -> Map<
    Seq<char>,
    (DestinationId, SubscriptionId),
> {
    match e {
        SessionEvent::Subscribed(destination, client_id, Ok(destination_sub_id)) => s.subscriptions.insert(
            client_id@,
            (destination, destination_sub_id),
        ),
        SessionEvent::Unsubscribed(client_id, Ok(_)) => s.subscriptions.remove(client_id@),
        _ => s.subscriptions,
    }
}

/// The client heart-beat intervals after an event: those of a CONNECT frame
/// accepted as such.
pub open spec fn spec_next_heartbeat(s: SessionView, e: SessionEvent) -> (u32, u32) {
    match e {
        SessionEvent::ClientFrame(
            Ok(ClientRequest::Connect { heartbeat_supplied, heartbeat_expected, .. }),
        ) => if is_live(s.phase) {
            (heartbeat_supplied, heartbeat_expected)
        } else {
            s.client_heartbeat
        },
        _ => s.client_heartbeat,
    }
}

/// The state after an event.
pub open spec fn spec_next_state(s: SessionView, e: SessionEvent) -> SessionView {
    SessionView {
        phase: spec_next_phase(s, e),
        subscriptions: spec_next_subscriptions(s, e),
        client_heartbeat: spec_next_heartbeat(s, e),
    }
}

/// A reply that is an ERROR frame with the given message.
pub open spec fn is_error_reply(r: Option<Reply>, message: Seq<char>) -> bool {
    r matches Some(Reply::Frame(ServerFrameData::Error { message: m })) && m@ == message
}

/// The message of the ERROR frame sent when a session must start with CONNECT.
pub open spec fn connect_first_message() -> Seq<char> {
    "Expected a CONNECT frame"@
}

/// The effects that keep watching for the client's heart-beats: none when the
/// client supplies none.
pub open spec fn watch_effects(supplied: u32) -> Seq<Effect> {
    if supplied > 0 {
        seq![Effect::WatchClient { timeout_millis: (supplied + CLIENT_HEARTBEAT_GRACE_MILLIS) as u64 }]
    } else {
        Seq::empty()
    }
}

/// The effects that end a session after a final error.
pub open spec fn closing_effects() -> Seq<Effect> {
    seq![Effect::CloseAfter { millis: ERROR_LINGER_MILLIS }]
}

/// What a session answers to an event, and the effects it asks for.
pub open spec fn spec_outcome(s: SessionView, e: SessionEvent, reply: Option<Reply>, effects: Seq<Effect>) -> bool {
    let supplied = spec_next_heartbeat(s, e).0;
    match s.phase {
        SessionPhase::Closing | SessionPhase::Closed => reply is None && effects.len() == 0,
        SessionPhase::AwaitingConnect | SessionPhase::Open => if s.phase == SessionPhase::AwaitingConnect
            && is_client_input(e) && !(e matches SessionEvent::ClientFrame(Ok(ClientRequest::Connect { .. }))) {
            &&& is_error_reply(reply, connect_first_message())
            &&& effects == closing_effects()
        } else {
            match e {
            SessionEvent::ClientFrame(Ok(ClientRequest::Connect { accept_version, heartbeat_expected, login, passcode, .. })) => {
                &&& reply is None
                &&& effects.len() == (if heartbeat_expected > 0 { 2int } else { 1int })
                &&& effects[0] matches Effect::ConfirmConnect { result, login: l, passcode: p }
                &&& l == login && p == passcode
                &&& (accepts_v1_2(accept_version@) ==> result is Ok)
                &&& (!accepts_v1_2(accept_version@) ==> (result matches Err(err) && err.message@
                    == refusal_message(accept_version@)))
                &&& heartbeat_expected > 0 ==> effects[1] == (Effect::StartHeartbeat { period_millis: heartbeat_expected })
            },
            SessionEvent::ClientFrame(Ok(ClientRequest::Subscribe { destination, id })) => {
                &&& reply is None
                &&& effects == seq![Effect::Subscribe { destination, client_subscription_id: id }] + watch_effects(supplied)
            },
            SessionEvent::ClientFrame(Ok(ClientRequest::Send { destination, body })) => {
                &&& reply is None
                &&& effects == seq![Effect::Send { destination, message: InboundMessage { sender_message_id: None, body } }]
                    + watch_effects(supplied)
            },
            SessionEvent::ClientFrame(Ok(ClientRequest::Unsubscribe { id })) => {
                &&& if s.subscriptions.contains_key(id@) {
                    &&& reply is None
                    &&& effects.len() == 1 + watch_effects(supplied).len()
                    &&& effects.subrange(1, effects.len() as int) == watch_effects(supplied)
                    &&& effects[0] matches Effect::Unsubscribe { destination, destination_subscription_id }
                    &&& destination@ == s.subscriptions[id@].0@
                    &&& destination_subscription_id@ == s.subscriptions[id@].1@
                } else {
                    &&& is_error_reply(reply, "Attempt to unsubscribe from unknown subscription: "@ + id@)
                    &&& effects == watch_effects(supplied)
                }
            },
            SessionEvent::ClientFrame(Ok(ClientRequest::Disconnect)) => reply is None && effects.len() == 0,
            // Transaction and acknowledgement frames: an open session is never asked to handle them.
            SessionEvent::ClientFrame(Ok(_)) => false,
            SessionEvent::ClientFrame(Err(err)) => {
                &&& is_error_reply(reply, "Error processing client message: StomperError { message: "@
                    + spec_debug_str(err.message@) + " }"@)
                &&& effects == watch_effects(supplied)
            },
            SessionEvent::ClientHeartbeat => reply is None && effects == watch_effects(supplied),
            SessionEvent::ServerMessage(client_id, message) => {
                &&& reply matches Some(Reply::Frame(ServerFrameData::Message { message_id, destination, subscription, content_length, body }))
                &&& message_id == message.message_id && destination == message.destination && body == message.body
                &&& subscription == client_id
                &&& content_length == message.body@.len() as u32
                &&& effects == seq![Effect::ResetHeartbeat]
            },
            SessionEvent::Subscribed(..) | SessionEvent::Unsubscribed(..) => reply is None && effects.len() == 0,
            SessionEvent::Connected(Ok(client)) => {
                &&& reply == Some(Reply::Frame(ServerFrameData::Connected {
                    heartbeat_supplied: s.client_heartbeat.1,
                    heartbeat_expected: s.client_heartbeat.0,
                    server: client.server,
                    session: client.session,
                }))
                &&& effects == watch_effects(s.client_heartbeat.0)
            },
            SessionEvent::Connected(Err(_)) => {
                &&& is_error_reply(reply, "Unable to initialise session, connect failed"@)
                &&& effects == closing_effects()
            },
            SessionEvent::Error(message) => is_error_reply(reply, message@) && effects.len() == 0,
            SessionEvent::Heartbeat => reply == Some(Reply::Heartbeat) && effects.len() == 0,
            SessionEvent::ClientHeartbeatMissed => if s.phase == SessionPhase::Open {
                &&& is_error_reply(reply, "Client heart-beat not received in time"@)
                &&& effects == closing_effects()
            } else {
                reply is None && effects.len() == 0
            },
            SessionEvent::LingerElapsed | SessionEvent::Close => reply is None && effects.len() == 0,
            }
        },
    }
}


/// Once a destination has confirmed a subscription, the client's UNSUBSCRIBE
/// naming the client's subscription id asks that destination to cancel that
/// very subscription, and the server answers nothing yet.
pub proof fn law_unsubscribe_targets_confirmed_subscription(
    s: SessionView,
    destination: DestinationId,
    client_id: SubscriptionId,
    destination_sub_id: SubscriptionId,
    request_id: SubscriptionId,
    reply: Option<Reply>,
    effects: Seq<Effect>,
)
    requires
        s.phase == SessionPhase::Open,
        request_id@ == client_id@,
        spec_outcome(
            spec_next_state(s, SessionEvent::Subscribed(destination, client_id, Ok(destination_sub_id))),
            SessionEvent::ClientFrame(Ok(ClientRequest::Unsubscribe { id: request_id })),
            reply,
            effects,
        ),
    ensures
        reply is None,
        effects[0] matches Effect::Unsubscribe { destination: d, destination_subscription_id: ds } && d@
            == destination@ && ds@ == destination_sub_id@,
{
}

/// Once a destination has confirmed the cancellation of a subscription, a
/// further UNSUBSCRIBE for it is answered with an ERROR frame.
pub proof fn law_cancelled_subscription_is_unknown(
    s: SessionView,
    client_id: SubscriptionId,
    cancelled: SubscriptionId,
    request_id: SubscriptionId,
    reply: Option<Reply>,
    effects: Seq<Effect>,
)
    requires
        s.phase == SessionPhase::Open,
        request_id@ == client_id@,
        spec_outcome(
            spec_next_state(s, SessionEvent::Unsubscribed(client_id, Ok(cancelled))),
            SessionEvent::ClientFrame(Ok(ClientRequest::Unsubscribe { id: request_id })),
            reply,
            effects,
        ),
    ensures
        is_error_reply(reply, "Attempt to unsubscribe from unknown subscription: "@ + request_id@),
{
}

/// The heart-beats of a CONNECT frame are mirrored in the CONNECTED frame
/// that confirms it: the server supplies what the client expects and expects
/// what the client supplies, and it starts watching the client's heart-beats
/// when the client supplies any.
pub proof fn law_connected_mirrors_heartbeat(
    s: SessionView,
    accept_version: Vec<Option<StompVersion>>,
    supplied: u32,
    expected: u32,
    login: Option<String>,
    passcode: Option<String>,
    client: ConnectedClient,
    reply: Option<Reply>,
    effects: Seq<Effect>,
)
    requires
        is_live(s.phase),
        spec_outcome(
            spec_next_state(
                s,
                SessionEvent::ClientFrame(
                    Ok(
                        ClientRequest::Connect {
                            accept_version,
                            heartbeat_supplied: supplied,
                            heartbeat_expected: expected,
                            login,
                            passcode,
                        },
                    ),
                ),
            ),
            SessionEvent::Connected(Ok(client)),
            reply,
            effects,
        ),
    ensures
        reply == Some(
            Reply::Frame(
                ServerFrameData::Connected {
                    heartbeat_supplied: expected,
                    heartbeat_expected: supplied,
                    server: client.server,
                    session: client.session,
                },
            ),
        ),
        effects == watch_effects(supplied),
{
}

/// A session that has ended stays ended, whatever happens, and answers nothing.
pub proof fn law_closed_is_final(s: SessionView, e: SessionEvent, reply: Option<Reply>, effects: Seq<Effect>)
    requires
        s.phase == SessionPhase::Closed,
        spec_outcome(s, e, reply, effects),
    ensures
        spec_next_state(s, e).phase == SessionPhase::Closed,
        reply is None,
        effects.len() == 0,
{
}

/// When the client's connection closes, the session ends at once, whatever
/// phase it was in, and answers nothing.
pub proof fn law_close_ends_every_session(s: SessionView, reply: Option<Reply>, effects: Seq<Effect>)
    requires
        spec_outcome(s, SessionEvent::Close, reply, effects),
    ensures
        spec_next_state(s, SessionEvent::Close).phase == SessionPhase::Closed,
        spec_next_state(s, SessionEvent::Close).subscriptions == s.subscriptions,
        reply is None,
        effects.len() == 0,
{
}

/// A CONNECT frame that offers version 1.2 anywhere in its list is confirmed
/// to the client, wherever 1.2 stands and whatever else is offered.
pub proof fn law_connect_confirmed_when_1_2_offered(
    s: SessionView,
    accept_version: Vec<Option<StompVersion>>,
    i: int,
    supplied: u32,
    expected: u32,
    login: Option<String>,
    passcode: Option<String>,
    reply: Option<Reply>,
    effects: Seq<Effect>,
)
    requires
        is_live(s.phase),
        0 <= i < accept_version@.len(),
        accept_version@[i] == Some(StompVersion::V1_2),
        spec_outcome(
            s,
            SessionEvent::ClientFrame(
                Ok(
                    ClientRequest::Connect {
                        accept_version,
                        heartbeat_supplied: supplied,
                        heartbeat_expected: expected,
                        login,
                        passcode,
                    },
                ),
            ),
            reply,
            effects,
        ),
    ensures
        effects[0] matches Effect::ConfirmConnect { result: Ok(_), .. },
{
}

/// A CONNECT frame is refused only when no version it offers is 1.2.
pub proof fn law_connect_refused_only_without_1_2(
    s: SessionView,
    accept_version: Vec<Option<StompVersion>>,
    supplied: u32,
    expected: u32,
    login: Option<String>,
    passcode: Option<String>,
    reply: Option<Reply>,
    effects: Seq<Effect>,
)
    requires
        is_live(s.phase),
        spec_outcome(
            s,
            SessionEvent::ClientFrame(
                Ok(
                    ClientRequest::Connect {
                        accept_version,
                        heartbeat_supplied: supplied,
                        heartbeat_expected: expected,
                        login,
                        passcode,
                    },
                ),
            ),
            reply,
            effects,
        ),
        effects[0] matches Effect::ConfirmConnect { result: Err(_), .. },
    ensures
        forall|i: int| 0 <= i < accept_version@.len() ==> accept_version@[i] != Some(StompVersion::V1_2),
{
}

/// A session ends only when the connection closes, when the client sends
/// DISCONNECT, or when the time to linger after a final error has passed.
pub proof fn law_how_sessions_end(s: SessionView, e: SessionEvent)
    requires
        s.phase != SessionPhase::Closed,
        spec_next_state(s, e).phase == SessionPhase::Closed,
    ensures
        e is Close || (e is LingerElapsed && s.phase == SessionPhase::Closing) || (s.phase
            == SessionPhase::Open && e matches SessionEvent::ClientFrame(Ok(ClientRequest::Disconnect))),
{
}

/// Whenever the server gives up on a session, it sends an ERROR frame and
/// keeps the connection open for a while before closing it.
pub proof fn law_final_error_then_linger(s: SessionView, e: SessionEvent, reply: Option<Reply>, effects: Seq<Effect>)
    requires
        s.phase != SessionPhase::Closing,
        spec_next_state(s, e).phase == SessionPhase::Closing,
        spec_outcome(s, e, reply, effects),
    ensures
        reply matches Some(Reply::Frame(ServerFrameData::Error { .. })),
        effects == closing_effects(),
{
}

/// The subscriptions change only when a destination confirms a subscription
/// or its cancellation.
pub proof fn law_subscriptions_change_on_confirmation(s: SessionView, e: SessionEvent)
    requires
        !(e matches SessionEvent::Subscribed(_, _, Ok(_))),
        !(e matches SessionEvent::Unsubscribed(_, Ok(_))),
    ensures
        spec_next_state(s, e).subscriptions == s.subscriptions,
{
}

/// Before its CONNECT frame, a session answers any other input from the
/// client with an ERROR frame and closes after a while.
pub proof fn law_connect_comes_first(s: SessionView, e: SessionEvent, reply: Option<Reply>, effects: Seq<Effect>)
    requires
        s.phase == SessionPhase::AwaitingConnect,
        is_client_input(e),
        !(e matches SessionEvent::ClientFrame(Ok(ClientRequest::Connect { .. }))),
        spec_outcome(s, e, reply, effects),
    ensures
        is_error_reply(reply, connect_first_message()),
        effects == closing_effects(),
        spec_next_state(s, e).phase == SessionPhase::Closing,
{
}

/// A subscription that a destination confirms and then cancels leaves the
/// session's subscriptions as they were before, when the client's
/// subscription id was not in use, whatever the session's phase; neither
/// confirmation changes the phase or is answered.
pub proof fn law_subscribe_then_cancel_restores(
    s: SessionView,
    destination: DestinationId,
    client_id: SubscriptionId,
    destination_sub_id: SubscriptionId,
    cancelled_id: SubscriptionId,
    cancelled: SubscriptionId,
)
    requires
        !s.subscriptions.contains_key(client_id@),
        cancelled_id@ == client_id@,
    ensures
        spec_next_state(
            spec_next_state(s, SessionEvent::Subscribed(destination, client_id, Ok(destination_sub_id))),
            SessionEvent::Unsubscribed(cancelled_id, Ok(cancelled)),
        ).subscriptions == s.subscriptions,
        spec_next_state(
            spec_next_state(s, SessionEvent::Subscribed(destination, client_id, Ok(destination_sub_id))),
            SessionEvent::Unsubscribed(cancelled_id, Ok(cancelled)),
        ).phase == s.phase,
        forall|r: Option<Reply>, e: Seq<Effect>| #[trigger] spec_outcome(
            s,
            SessionEvent::Subscribed(destination, client_id, Ok(destination_sub_id)),
            r,
            e,
        ) ==> r is None && e.len() == 0,
        forall|r: Option<Reply>, e: Seq<Effect>| #[trigger] spec_outcome(
            spec_next_state(s, SessionEvent::Subscribed(destination, client_id, Ok(destination_sub_id))),
            SessionEvent::Unsubscribed(cancelled_id, Ok(cancelled)),
            r,
            e,
        ) ==> r is None && e.len() == 0,
{
    assert(s.subscriptions.insert(client_id@, (destination, destination_sub_id)).remove(cancelled_id@)
        =~= s.subscriptions);
}

/// An open session answers each heart-beat of its timer with a heart-beat to
/// the client and stays as it was, so it does so again at the next one.
pub proof fn law_heartbeat_keeps_session(s: SessionView, reply: Option<Reply>, effects: Seq<Effect>)
    requires
        s.phase == SessionPhase::Open,
        spec_outcome(s, SessionEvent::Heartbeat, reply, effects),
    ensures
        spec_next_state(s, SessionEvent::Heartbeat) == s,
        reply == Some(Reply::Heartbeat),
        effects.len() == 0,
{
}

/// A client that asks for heart-beats gets one every period it asked for:
/// its CONNECT frame makes the session start a heart-beat timer with that
/// period; a timer that starts without a period and is given that one at
/// `at` then fires one period later and every period after; and at each
/// firing the open session sends a heart-beat and stays as it was.
pub proof fn law_server_heartbeats_every_period(
    s: SessionView,
    accept_version: Vec<Option<StompVersion>>,
    supplied: u32,
    expected: u32,
    login: Option<String>,
    passcode: Option<String>,
    reply: Option<Reply>,
    effects: Seq<Effect>,
    start: int,
    at: int,
    firings: Seq<(int, TimerEvent)>,
)
    requires
        is_live(s.phase),
        expected > 0,
        spec_outcome(
            s,
            SessionEvent::ClientFrame(
                Ok(
                    ClientRequest::Connect {
                        accept_version,
                        heartbeat_supplied: supplied,
                        heartbeat_expected: expected,
                        login,
                        passcode,
                    },
                ),
            ),
            reply,
            effects,
        ),
        only_firings(firings),
        can_happen(
            TimerState { period_millis: 0, listening: true },
            start,
            seq![(at, TimerEvent::Command(TimerCommand::ChangePeriod(expected as u64)))] + firings,
        ),
    ensures
        effects[1] == (Effect::StartHeartbeat { period_millis: expected }),
        forall|i: int| 0 <= i < firings.len() ==> #[trigger] firings[i].0 == at + (i + 1) * expected,
        ({
            let open = spec_next_state(
                s,
                SessionEvent::ClientFrame(
                    Ok(
                        ClientRequest::Connect {
                            accept_version,
                            heartbeat_supplied: supplied,
                            heartbeat_expected: expected,
                            login,
                            passcode,
                        },
                    ),
                ),
            );
            &&& open.phase == SessionPhase::Open
            &&& spec_next_state(open, SessionEvent::Heartbeat) == open
            &&& forall|r: Option<Reply>, e: Seq<Effect>| #[trigger] spec_outcome(open, SessionEvent::Heartbeat, r, e)
                ==> r == Some(Reply::Heartbeat) && e.len() == 0
        }),
{
    let before = Seq::<(int, TimerEvent)>::empty();
    assert(before.push((at, TimerEvent::Command(TimerCommand::ChangePeriod(expected as u64))))
        =~= seq![(at, TimerEvent::Command(TimerCommand::ChangePeriod(expected as u64)))]);
    law_change_period_restarts(
        TimerState { period_millis: 0, listening: true },
        start,
        before,
        at,
        expected as u64,
        firings,
    );
}

/// While the client promises heart-beats, anything else it sends (a
/// heart-beat, or a frame other than CONNECT and DISCONNECT) grants it a new
/// period of grace: the last effect watches for its next heart-beat.
pub proof fn law_client_input_rearms_watch(s: SessionView, e: SessionEvent, reply: Option<Reply>, effects: Seq<Effect>)
    requires
        s.phase == SessionPhase::Open,
        s.client_heartbeat.0 > 0,
        is_client_input(e),
        !(e matches SessionEvent::ClientFrame(Ok(ClientRequest::Connect { .. }))),
        !(e matches SessionEvent::ClientFrame(Ok(ClientRequest::Disconnect))),
        !is_unsupported_frame(e),
        spec_outcome(s, e, reply, effects),
    ensures
        effects.len() > 0,
        effects.last() == (Effect::WatchClient {
            timeout_millis: (s.client_heartbeat.0 + CLIENT_HEARTBEAT_GRACE_MILLIS) as u64,
        }),
{
    if let SessionEvent::ClientFrame(Ok(ClientRequest::Unsubscribe { id })) = e {
        if s.subscriptions.contains_key(id@) {
            assert(effects.subrange(1, effects.len() as int).last() == effects.last());
        }
    }
}

/// The `accept-version` header as `stomp_parser` shows it, for recognised versions.
fn accept_version_text_of(vs: &Vec<Option<StompVersion>>) -> (s: String)
    requires
        all_known(vs@),
    ensures
        s@ == accept_version_shown(vs@),
{
    let mut s = String::from_str("accept-version:");
    let ghost prefix = s@;
    let mut i: usize = 0;
    while i < vs.len()
        invariant
            i <= vs@.len(),
            all_known(vs@),
            s@ == prefix + versions_joined(vs@.subrange(0, i as int)),
            prefix == "accept-version:"@,
        decreases vs.len() - i,
    {
        let name = match vs[i] {
            Some(StompVersion::V1_0) => "1.0",
            Some(StompVersion::V1_1) => "1.1",
            Some(StompVersion::V1_2) => "1.2",
            None => {
                assert(vs@[i as int] is Some);
                ""
            },
        };
        assert(vs@.subrange(0, i + 1).drop_last() =~= vs@.subrange(0, i as int));
        assert(vs@.subrange(0, i + 1).last() == vs@[i as int]);
        if i > 0 {
            s.append(",");
        } else {
            assert(versions_joined(vs@.subrange(0, 0)) =~= Seq::<char>::empty());
        }
        s.append(name);
        proof {
            assert(s@ =~= prefix + versions_joined(vs@.subrange(0, i + 1)));
        }
        i = i + 1;
    }
    assert(vs@.subrange(0, vs@.len() as int) =~= vs@);
    s
}

/// The error refusing a CONNECT frame that does not offer version 1.2.
pub(crate) fn refusal_error(vs: &Vec<Option<StompVersion>>) -> (e: StomperError)
    requires
        all_known(vs@),
    ensures
        e.message@ == refusal_message(vs@),
{
    let shown = accept_version_text_of(vs);
    let mut message = String::from_str("Unavailable Version ");
    message.append(shown.as_str());
    message.append(" requested.");
    StomperError { message }
}

/// Whether version 1.2 is among the versions.
pub(crate) fn accepts(vs: &Vec<Option<StompVersion>>) -> (r: bool)
    ensures
        r == accepts_v1_2(vs@),
{
    let mut i: usize = 0;
    while i < vs.len()
        invariant
            i <= vs@.len(),
            forall|k: int| 0 <= k < i ==> vs@[k] != Some(StompVersion::V1_2),
        decreases vs.len() - i,
    {
        if let Some(StompVersion::V1_2) = vs[i] {
            return true;
        }
        i = i + 1;
    }
    false
}

/// An ERROR frame with the given message.
fn error_reply(message: String) -> (r: Option<Reply>)
    ensures
        is_error_reply(r, message@),
{
    Some(Reply::Frame(ServerFrameData::Error { message }))
}

/// Appends the effects that keep watching the client's heart-beats.
fn push_watch(effects: &mut Vec<Effect>, supplied: u32)
    ensures
        final(effects)@ == old(effects)@ + watch_effects(supplied),
{
    if supplied > 0 {
        effects.push(Effect::WatchClient { timeout_millis: supplied as u64 + CLIENT_HEARTBEAT_GRACE_MILLIS });
        assert(final(effects)@ =~= old(effects)@ + watch_effects(supplied));
    } else {
        assert(final(effects)@ =~= old(effects)@ + watch_effects(supplied));
    }
}

impl SessionState {
    /// The session's subscription table is well formed.
    pub closed spec fn wf(&self) -> bool {
        self.subscriptions.wf()
    }

    /// A session that waits for its CONNECT frame.
    pub fn new() -> (s: SessionState)
        ensures
            s.wf(),
            s@.phase == SessionPhase::AwaitingConnect,
            s@.subscriptions == Map::<Seq<char>, (DestinationId, SubscriptionId)>::empty(),
            s@.client_heartbeat == (0u32, 0u32),
    {
        SessionState { phase: SessionPhase::AwaitingConnect, subscriptions: Table::new(), client_heartbeat: (0, 0) }
    }

    /// Where the session stands.
    pub fn phase(&self) -> (p: SessionPhase)
        ensures
            p == self@.phase,
    {
        self.phase
    }

    /// Handles one event. An open session cannot handle transaction or
    /// acknowledgement frames, and a live one cannot refuse a CONNECT frame
    /// that offers an unrecognised version and not version 1.2.
    pub fn handle_event(&mut self, event: SessionEvent) -> (step: Step)
        requires
            old(self).wf(),
            !(old(self)@.phase == SessionPhase::Open && is_unsupported_frame(event)),
            !(is_live(old(self)@.phase) && is_unshowable_connect(event)),
        ensures
            final(self).wf(),
            final(self)@ == spec_next_state(old(self)@, event),
            (step.state == ClientState::Dead) == (final(self)@.phase == SessionPhase::Closed),
            spec_outcome(old(self)@, event, step.reply, step.effects@),
    {
        let ghost before = self@;
        let mut effects: Vec<Effect> = Vec::new();
        let supplied = self.client_heartbeat.0;
        match self.phase {
            SessionPhase::Closed => {
                if let SessionEvent::Subscribed(destination, client_id, Ok(destination_sub_id)) = event {
                    self.subscriptions.insert(client_id, (destination, destination_sub_id));
                } else if let SessionEvent::Unsubscribed(client_id, Ok(_)) = event {
                    let _ = self.subscriptions.remove(&client_id);
                }
                return Step { state: ClientState::Dead, reply: None, effects };
            },
            SessionPhase::Closing => {
                let state = match event {
                    SessionEvent::LingerElapsed | SessionEvent::Close => {
                        self.phase = SessionPhase::Closed;
                        ClientState::Dead
                    },
                    SessionEvent::Subscribed(destination, client_id, Ok(destination_sub_id)) => {
                        self.subscriptions.insert(client_id, (destination, destination_sub_id));
                        ClientState::Alive
                    },
                    SessionEvent::Unsubscribed(client_id, Ok(_)) => {
                        let _ = self.subscriptions.remove(&client_id);
                        ClientState::Alive
                    },
                    _ => ClientState::Alive,
                };
                return Step { state, reply: None, effects };
            },
            _ => {},
        }
        if self.phase == SessionPhase::AwaitingConnect {
            let refused = match &event {
                SessionEvent::ClientFrame(Ok(ClientRequest::Connect { .. })) => false,
                SessionEvent::ClientFrame(_) | SessionEvent::ClientHeartbeat => true,
                _ => false,
            };
            if refused {
                self.phase = SessionPhase::Closing;
                effects.push(Effect::CloseAfter { millis: ERROR_LINGER_MILLIS });
                assert(effects@ =~= closing_effects());
                return Step {
                    state: ClientState::Alive,
                    reply: error_reply(String::from_str("Expected a CONNECT frame")),
                    effects,
                };
            }
        }
        match event {
            SessionEvent::ClientFrame(Ok(request)) => {
                match request {
                    ClientRequest::Connect { accept_version, heartbeat_supplied, heartbeat_expected, login, passcode } => {
                        let result = if accepts(&accept_version) {
                            Ok(())
                        } else {
                            Err(refusal_error(&accept_version))
                        };
                        effects.push(Effect::ConfirmConnect { result, login, passcode });
                        if heartbeat_expected > 0 {
                            effects.push(Effect::StartHeartbeat { period_millis: heartbeat_expected });
                        }
                        self.client_heartbeat = (heartbeat_supplied, heartbeat_expected);
                        self.phase = SessionPhase::Open;
                        Step { state: ClientState::Alive, reply: None, effects }
                    },
                    ClientRequest::Subscribe { destination, id } => {
                        effects.push(Effect::Subscribe { destination, client_subscription_id: id });
                        push_watch(&mut effects, supplied);
                        Step { state: ClientState::Alive, reply: None, effects }
                    },
                    ClientRequest::Send { destination, body } => {
                        effects.push(
                            Effect::Send { destination, message: InboundMessage { sender_message_id: None, body } },
                        );
                        push_watch(&mut effects, supplied);
                        Step { state: ClientState::Alive, reply: None, effects }
                    },
                    ClientRequest::Unsubscribe { id } => {
                        let reply = match self.subscriptions.get(&id) {
                            Some(found) => {
                                effects.push(
                                    Effect::Unsubscribe {
                                        destination: found.0.duplicate(),
                                        destination_subscription_id: found.1.duplicate(),
                                    },
                                );
                                None
                            },
                            None => {
                                let mut message = String::from_str("Attempt to unsubscribe from unknown subscription: ");
                                message.append(id.as_str());
                                error_reply(message)
                            },
                        };
                        let ghost first = effects@;
                        push_watch(&mut effects, supplied);
                        assert(effects@.subrange(first.len() as int, effects@.len() as int) =~= watch_effects(supplied));
                        Step { state: ClientState::Alive, reply, effects }
                    },
                    ClientRequest::Disconnect => {
                        self.phase = SessionPhase::Closed;
                        Step { state: ClientState::Dead, reply: None, effects }
                    },
                    _ => {
                        Step { state: ClientState::Alive, reply: None, effects }
                    },
                }
            },
            SessionEvent::ClientFrame(Err(err)) => {
                let mut message = String::from_str("Error processing client message: StomperError { message: ");
                let quoted = debug_str(err.message.as_str());
                message.append(quoted.as_str());
                message.append(" }");
                push_watch(&mut effects, supplied);
                Step { state: ClientState::Alive, reply: error_reply(message), effects }
            },
            SessionEvent::ClientHeartbeat => {
                push_watch(&mut effects, supplied);
                Step { state: ClientState::Alive, reply: None, effects }
            },
            SessionEvent::ServerMessage(client_id, message) => {
                let content_length = #[verifier::truncate] (message.body.len() as u32);
                effects.push(Effect::ResetHeartbeat);
                Step {
                    state: ClientState::Alive,
                    reply: Some(
                        Reply::Frame(
                            ServerFrameData::Message {
                                message_id: message.message_id,
                                destination: message.destination,
                                subscription: client_id,
                                content_length,
                                body: message.body,
                            },
                        ),
                    ),
                    effects,
                }
            },
            SessionEvent::Subscribed(destination, client_id, result) => {
                if let Ok(destination_sub_id) = result {
                    self.subscriptions.insert(client_id, (destination, destination_sub_id));
                }
                Step { state: ClientState::Alive, reply: None, effects }
            },
            SessionEvent::Unsubscribed(client_id, result) => {
                if let Ok(_) = result {
                    let _ = self.subscriptions.remove(&client_id);
                }
                Step { state: ClientState::Alive, reply: None, effects }
            },
            SessionEvent::Connected(Ok(client)) => {
                self.phase = SessionPhase::Open;
                push_watch(&mut effects, supplied);
                Step {
                    state: ClientState::Alive,
                    reply: Some(
                        Reply::Frame(
                            ServerFrameData::Connected {
                                heartbeat_supplied: self.client_heartbeat.1,
                                heartbeat_expected: self.client_heartbeat.0,
                                server: client.server,
                                session: client.session,
                            },
                        ),
                    ),
                    effects,
                }
            },
            SessionEvent::Connected(Err(_)) => {
                self.phase = SessionPhase::Closing;
                effects.push(Effect::CloseAfter { millis: ERROR_LINGER_MILLIS });
                assert(effects@ =~= closing_effects());
                Step {
                    state: ClientState::Alive,
                    reply: error_reply(String::from_str("Unable to initialise session, connect failed")),
                    effects,
                }
            },
            SessionEvent::Error(message) => Step { state: ClientState::Alive, reply: error_reply(message), effects },
            SessionEvent::Heartbeat => Step { state: ClientState::Alive, reply: Some(Reply::Heartbeat), effects },
            SessionEvent::ClientHeartbeatMissed => {
                if self.phase == SessionPhase::Open {
                    self.phase = SessionPhase::Closing;
                    effects.push(Effect::CloseAfter { millis: ERROR_LINGER_MILLIS });
                    assert(effects@ =~= closing_effects());
                    Step {
                        state: ClientState::Alive,
                        reply: error_reply(String::from_str("Client heart-beat not received in time")),
                        effects,
                    }
                } else {
                    Step { state: ClientState::Alive, reply: None, effects }
                }
            },
            SessionEvent::LingerElapsed => Step { state: ClientState::Alive, reply: None, effects },
            SessionEvent::Close => {
                self.phase = SessionPhase::Closed;
                Step { state: ClientState::Dead, reply: None, effects }
            },
        }
    }
}

} // verus!
