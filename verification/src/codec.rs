//! Reading client frames from bytes and writing server frames to bytes, by
//! way of the `stomp_parser` crate.
use crate::destinations::{DestinationId, SubscriptionId};
use crate::frame::model::StompVersion;
use crate::session::{version_text, ClientRequest, Reply, ServerFrameData, SessionEvent};
use crate::error::StomperError;
use stomp_parser::client::ClientFrame;
use stomp_parser::headers::{HeartBeatIntervals, StompVersion as ParserVersion};
use stomp_parser::server::{ConnectedFrameBuilder, ErrorFrameBuilder, MessageFrameBuilder};
use vstd::prelude::*;

verus! {

#[verifier::external_type_specification]
#[verifier::external_body]
pub struct ExClientFrame(ClientFrame);

#[verifier::external_type_specification]
#[verifier::external_body]
pub struct ExConnectFrame<'a>(stomp_parser::client::ConnectFrame<'a>);

#[verifier::external_type_specification]
#[verifier::external_body]
pub struct ExSendFrame<'a>(stomp_parser::client::SendFrame<'a>);

/// A client frame as the contracts see it: text as characters, bodies as bytes.
pub enum RequestView {
    Connect {
        accept_version: Seq<Option<StompVersion>>,
        heartbeat_supplied: u32,
        heartbeat_expected: u32,
        login: Option<Seq<char>>,
        passcode: Option<Seq<char>>,
    },
    Subscribe { destination: Seq<char>, id: Seq<char> },
    Send { destination: Seq<char>, body: Seq<u8> },
    Unsubscribe { id: Seq<char> },
    Disconnect,
    Abort,
    Ack,
    Begin,
    Commit,
    Nack,
}

/// An optional text as characters.
pub open spec fn text_view(t: Option<String>) -> Option<Seq<char>> {
    match t {
        Some(s) => Some(s@),
        None => None,
    }
}

impl View for ClientRequest {
    type V = RequestView;

    open spec fn view(&self) -> RequestView {
        match self {
            ClientRequest::Connect { accept_version, heartbeat_supplied, heartbeat_expected, login, passcode } => {
                RequestView::Connect {
                    accept_version: accept_version@,
                    heartbeat_supplied: *heartbeat_supplied,
                    heartbeat_expected: *heartbeat_expected,
                    login: text_view(*login),
                    passcode: text_view(*passcode),
                }
            },
            ClientRequest::Subscribe { destination, id } => RequestView::Subscribe { destination: destination@, id: id@ },
            ClientRequest::Send { destination, body } => RequestView::Send { destination: destination@, body: body@ },
            ClientRequest::Unsubscribe { id } => RequestView::Unsubscribe { id: id@ },
            ClientRequest::Disconnect => RequestView::Disconnect,
            ClientRequest::Abort => RequestView::Abort,
            ClientRequest::Ack => RequestView::Ack,
            ClientRequest::Begin => RequestView::Begin,
            ClientRequest::Commit => RequestView::Commit,
            ClientRequest::Nack => RequestView::Nack,
        }
    }
}

/// A parse result as the contracts see it.
pub open spec fn parse_result_view(r: Result<ClientRequest, String>) -> Result<RequestView, Seq<char>> {
    match r {
        Ok(req) => Ok(req@),
        Err(m) => Err(m@),
    }
}

/// What `stomp_parser` reads from the bytes of a client frame: the frame, or
/// the message of its parse error.
pub uninterp spec fn spec_parse_client_frame(bytes: Seq<u8>) -> Result<RequestView, Seq<char>>;

/// Calls `ClientFrame::try_from` of `stomp_parser`; a frame is turned into a
/// [`ClientRequest`] by [`request_of`], an error into its message. The result
/// is named by [`spec_parse_client_frame`].
#[verifier::external_body]
fn parse_with_stomp_parser(bytes: Vec<u8>) -> (r: Result<ClientRequest, String>)
    ensures
        parse_result_view(r) == spec_parse_client_frame(bytes@),
{
    match ClientFrame::try_from(bytes) {
        Err(err) => Err(err.message().to_owned()),
        Ok(frame) => Ok(request_of(frame)),
    }
}

/// Turns a `ClientFrame` of `stomp_parser` into a [`ClientRequest`], one
/// variant for each, reading header values as `value()` gives them; a CONNECT
/// frame by [`connect_request_of`], a SEND frame by [`send_request_of`]. Nothing is stated of it here: the
/// contract of [`parse_with_stomp_parser`] covers the whole.
#[verifier::external_body]
fn request_of(frame: ClientFrame) -> ClientRequest {
    match frame {
        ClientFrame::Connect(f) => connect_request_of(&f),
        ClientFrame::Subscribe(f) => ClientRequest::Subscribe {
            destination: DestinationId(f.destination().value().to_owned()), id: SubscriptionId(f.id().value().to_owned()) },
        ClientFrame::Send(f) => send_request_of(&f),
        ClientFrame::Unsubscribe(f) => ClientRequest::Unsubscribe { id: SubscriptionId(f.id().value().to_owned()) },
        ClientFrame::Disconnect(_) => ClientRequest::Disconnect,
        ClientFrame::Abort(_) => ClientRequest::Abort,
        ClientFrame::Ack(_) => ClientRequest::Ack,
        ClientFrame::Begin(_) => ClientRequest::Begin,
        ClientFrame::Commit(_) => ClientRequest::Commit,
        ClientFrame::Nack(_) => ClientRequest::Nack,
    }
}

/// Turns a `SendFrame` of `stomp_parser` into a [`ClientRequest`]: its
/// destination and body. Nothing is stated of it here: the contract of
/// [`parse_with_stomp_parser`] covers the whole.
#[verifier::external_body]
fn send_request_of(f: &stomp_parser::client::SendFrame<'_>) -> ClientRequest {
    ClientRequest::Send { destination: DestinationId(f.destination().value().to_owned()), body: f.body().unwrap_or_default().to_vec() }
}

/// Turns a `ConnectFrame` of `stomp_parser` into a [`ClientRequest`]: its
/// accepted versions (`None` for one not recognised), heart-beat intervals,
/// login and passcode. Nothing is stated of it here: the contract of
/// [`parse_with_stomp_parser`] covers the whole.
#[verifier::external_body]
fn connect_request_of(f: &stomp_parser::client::ConnectFrame<'_>) -> ClientRequest {
    let versions = f.accept_version().value().0.iter().map(|v| match v {
        ParserVersion::V1_0 => Some(StompVersion::V1_0),
        ParserVersion::V1_1 => Some(StompVersion::V1_1),
        ParserVersion::V1_2 => Some(StompVersion::V1_2),
        ParserVersion::Unknown(_) => None,
    });
    let heartbeat = f.heartbeat().value();
    ClientRequest::Connect { accept_version: versions.collect(), heartbeat_supplied: heartbeat.supplied,
        heartbeat_expected: heartbeat.expected, login: f.login().map(|l| l.value().to_owned()),
        passcode: f.passcode().map(|p| p.value().to_owned()) }
}

/// Whether bytes are a client heart-beat: an end of line, `\n` or `\r\n`.
pub open spec fn is_heartbeat_bytes(bytes: Seq<u8>) -> bool {
    bytes == seq![10u8] || bytes == seq![13u8, 10u8]
}

/// The event for what the parser read from a client frame: the frame, or an
/// error carrying the parser's message.
pub fn parsed_event(parsed: Result<ClientRequest, String>) -> (e: SessionEvent)
    ensures
        match parsed {
            Ok(req) => e == SessionEvent::ClientFrame(Ok(req)),
            Err(message) => e == SessionEvent::ClientFrame(Err(StomperError { message })),
        },
{
    match parsed {
        Ok(req) => SessionEvent::ClientFrame(Ok(req)),
        Err(message) => SessionEvent::ClientFrame(Err(StomperError { message })),
    }
}

/// The event for bytes received from the client: a heart-beat for an end of
/// line, otherwise the frame that the parser reads, or the parse error.
pub fn client_event(bytes: Vec<u8>) -> (e: SessionEvent)
    ensures
        is_heartbeat_bytes(bytes@) ==> e is ClientHeartbeat,
        !is_heartbeat_bytes(bytes@) ==> match e {
            SessionEvent::ClientFrame(Ok(req)) => spec_parse_client_frame(bytes@) == Ok::<RequestView, Seq<char>>(req@),
            SessionEvent::ClientFrame(Err(err)) => spec_parse_client_frame(bytes@) == Err::<RequestView, Seq<char>>(err.message@),
            _ => false,
        },
{
    let n = bytes.len();
    if (n == 1 && bytes[0] == 10u8) || (n == 2 && bytes[0] == 13u8 && bytes[1] == 10u8) {
        assert(is_heartbeat_bytes(bytes@)) by {
            if n == 1 {
                assert(bytes@ =~= seq![10u8]);
            } else {
                assert(bytes@ =~= seq![13u8, 10u8]);
            }
        }
        return SessionEvent::ClientHeartbeat;
    }
    assert(!is_heartbeat_bytes(bytes@));
    parsed_event(parse_with_stomp_parser(bytes))
}

/// A number in decimal, as `Display` writes it.
pub open spec fn decimal_text(n: nat) -> Seq<char>
    decreases n,
{
    if n < 10 {
        seq![(n + 48) as char]
    } else {
        decimal_text(n / 10) + seq![((n % 10) + 48) as char]
    }
}

/// A header line of a frame, `name:value` and an end of line; nothing for an
/// absent header. `stomp_parser` writes values as they are, unescaped.
pub open spec fn header_line(name: Seq<char>, value: Option<Seq<char>>) -> Seq<char> {
    match value {
        Some(v) => name + ":"@ + v + "\n"@,
        None => Seq::empty(),
    }
}

/// The bytes of a frame as `stomp_parser` writes them: the command line and
/// the header lines in UTF-8, an empty line, the body, and a NUL byte.
pub open spec fn frame_bytes(head: Seq<char>, body: Seq<u8>) -> Seq<u8> {
    vstd::utf8::encode_utf8(head + "\n"@) + body + seq![0u8]
}

/// What `stomp_parser` writes for a CONNECTED frame with these headers: the
/// `version` header, then `heart-beat`, `session` and `server`, in that order.
pub open spec fn spec_connected_frame_bytes(
    version: StompVersion,
    heartbeat_supplied: u32,
    heartbeat_expected: u32,
    server: Option<Seq<char>>,
    session: Option<Seq<char>>,
) -> Seq<u8> {
    frame_bytes(
        "CONNECTED\n"@ + header_line("version"@, Some(version_text(version))) + header_line(
            "heart-beat"@,
            Some(decimal_text(heartbeat_supplied as nat) + ","@ + decimal_text(heartbeat_expected as nat)),
        ) + header_line("session"@, session) + header_line("server"@, server),
        Seq::empty(),
    )
}

/// Builds a CONNECTED frame with `ConnectedFrameBuilder` of `stomp_parser`,
/// setting the `server` and `session` headers where given, and serialises it:
/// the bytes are those of [`spec_connected_frame_bytes`].
#[verifier::external_body]
fn connected_frame_bytes(
    version: StompVersion,
    heartbeat_supplied: u32,
    heartbeat_expected: u32,
    server: Option<String>,
    session: Option<String>,
) -> (r: Vec<u8>)
    ensures
        r@ == spec_connected_frame_bytes(version, heartbeat_supplied, heartbeat_expected, text_view(server), text_view(session)),
{
    let version = match version {
        StompVersion::V1_0 => ParserVersion::V1_0,
        StompVersion::V1_1 => ParserVersion::V1_1,
        StompVersion::V1_2 => ParserVersion::V1_2,
    };
    let builder = ConnectedFrameBuilder::new(version).heartbeat(HeartBeatIntervals::new(heartbeat_supplied, heartbeat_expected));
    let builder = match server { Some(server) => builder.server(server), None => builder };
    let builder = match session { Some(session) => builder.session(session), None => builder };
    builder.build().into()
}

/// What `stomp_parser` writes for a MESSAGE frame with these headers and
/// body: `message-id`, `destination`, `subscription`, `content-type` and
/// `content-length`, in that order, then the body.
pub open spec fn spec_message_frame_bytes(
    message_id: Seq<char>,
    destination: Seq<char>,
    subscription: Seq<char>,
    content_type: Seq<char>,
    content_length: u32,
    body: Seq<u8>,
) -> Seq<u8> {
    frame_bytes(
        "MESSAGE\n"@ + header_line("message-id"@, Some(message_id)) + header_line("destination"@, Some(destination))
            + header_line("subscription"@, Some(subscription)) + header_line("content-type"@, Some(content_type))
            + header_line("content-length"@, Some(decimal_text(content_length as nat))),
        body,
    )
}

/// Builds a MESSAGE frame with `MessageFrameBuilder` of `stomp_parser` and
/// serialises it: the bytes are those of [`spec_message_frame_bytes`].
#[verifier::external_body]
fn message_frame_bytes(
    message_id: String,
    destination: String,
    subscription: String,
    content_type: &str,
    content_length: u32,
    body: Vec<u8>,
) -> (r: Vec<u8>)
    ensures
        r@ == spec_message_frame_bytes(message_id@, destination@, subscription@, content_type@, content_length, body@),
{
    MessageFrameBuilder::new(message_id, destination, subscription)
        .content_type(content_type.to_owned())
        .content_length(content_length)
        .body(body)
        .build()
        .into()
}

/// What `stomp_parser` writes for an ERROR frame with this message and no body.
pub open spec fn spec_error_frame_bytes(message: Seq<char>) -> Seq<u8> {
    frame_bytes("ERROR\n"@ + header_line("message"@, Some(message)), Seq::empty())
}

/// Builds an ERROR frame with `ErrorFrameBuilder` of `stomp_parser` and
/// serialises it: the bytes are those of [`spec_error_frame_bytes`].
#[verifier::external_body]
fn error_frame_bytes(message: String) -> (r: Vec<u8>)
    ensures
        r@ == spec_error_frame_bytes(message@),
{
    ErrorFrameBuilder::new().message(message).build().into()
}

/// The content type of the messages that the server delivers.
pub open spec fn message_content_type() -> Seq<char> {
    "text/plain"@
}

/// The bytes sent to the client for a reply: a heart-beat is an end of line;
/// a CONNECTED frame announces version 1.2; a MESSAGE frame has content type
/// `text/plain`.
pub fn reply_bytes(reply: Reply) -> (r: Vec<u8>)
    ensures
        match reply {
            Reply::Heartbeat => r@ == seq![10u8],
            Reply::Frame(ServerFrameData::Connected { heartbeat_supplied, heartbeat_expected, server, session }) => r@
                == spec_connected_frame_bytes(StompVersion::V1_2, heartbeat_supplied, heartbeat_expected, text_view(server), text_view(session)),
            Reply::Frame(ServerFrameData::Message { message_id, destination, subscription, content_length, body }) => r@
                == spec_message_frame_bytes(message_id@, destination@, subscription@, message_content_type(), content_length, body@),
            Reply::Frame(ServerFrameData::Error { message }) => r@ == spec_error_frame_bytes(message@),
        },
{
    match reply {
        Reply::Heartbeat => {
            let mut v = Vec::new();
            v.push(10u8);
            assert(v@ =~= seq![10u8]);
            v
        },
        Reply::Frame(ServerFrameData::Connected { heartbeat_supplied, heartbeat_expected, server, session }) => {
            connected_frame_bytes(StompVersion::V1_2, heartbeat_supplied, heartbeat_expected, server, session)
        },
        Reply::Frame(ServerFrameData::Message { message_id, destination, subscription, content_length, body }) => {
            let content_type = "text/plain";
            proof {
                assert(content_type@ == message_content_type());
            }
            message_frame_bytes(message_id.0, destination.0, subscription.0, content_type, content_length, body)
        },
        Reply::Frame(ServerFrameData::Error { message }) => error_frame_bytes(message),
    }
}

} // verus!
