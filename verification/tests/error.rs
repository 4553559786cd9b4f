use little_stomper::error::{StomperError, UnknownCommandError};
use sender_sink::wrappers::SinkError;
use std::convert::Infallible;
use stomp_parser::error::StompParseError;

#[test]
fn from_stomp_parse_error() {
    let src = StompParseError::new("freaky");
    let error: StomperError = src.into();

    assert_eq!("freaky", error.message);
}

#[test]
fn from_sink_error() {
    let src = SinkError::ChannelClosed;
    let error: StomperError = src.into();

    assert!(error.message.contains("Closed"));
}

#[test]
fn from_sink_error_channel_closed() {
    let error: StomperError = SinkError::ChannelClosed.into();

    assert_eq!("Error sending to Sink: ChannelClosed", error.message);
}

#[test]
fn from_sink_error_send_failed() {
    let error: StomperError = SinkError::SendFailed.into();

    assert_eq!("Error sending to Sink: SendFailed", error.message);
}

fn never_error() -> Result<(), Infallible> {
    Ok(())
}

#[test]
fn from_infallible() {
    let src = never_error();
    let target = src.map_err(StomperError::from);

    // this is really a compiler test
    assert!(target.is_ok());
}

#[test]
fn error_display() {
    let src = StomperError::new("Hello, world!");

    // this is really a compiler test
    assert_eq!("Hello, world!", src.to_string());
}

#[test]
fn unknown_command_display_quotes_the_text() {
    let error = UnknownCommandError { text: "FOO\n".to_owned() };

    assert_eq!("Unknown command \"FOO\\n\"", error.to_string());
}
