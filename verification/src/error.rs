//! The error type of the library.
use sender_sink::wrappers::SinkError;
use std::convert::Infallible;
use stomp_parser::error::StompParseError;
use vstd::prelude::*;

verus! {

#[verifier::external_type_specification]
#[verifier::external_body]
pub struct ExSinkError(SinkError);

#[verifier::external_type_specification]
#[verifier::external_body]
pub struct ExStompParseError(StompParseError);

/// An error raised by the library, carrying a human-readable message.
#[derive(Debug, PartialEq, Eq, Clone)]
pub struct StomperError {
    pub message: String,
}

impl StomperError {
    /// Creates an error with the given message.
    pub fn new(message: &str) -> (e: StomperError)
        ensures
            e.message@ == message@,
    {
        StomperError { message: message.to_owned() }
    }

    /// The text shown for this error: its message.
    pub fn to_string(&self) -> (s: String)
        ensures
            s@ == self.message@,
    {
        self.message.clone()
    }
}

/// The two ways in which a sink of `sender_sink` fails, as its `SinkError` tells them.
#[derive(Debug, PartialEq, Eq, Structural, Clone, Copy)]
pub enum SinkFailure {
    ChannelClosed,
    SendFailed,
}

/// The variant of a `SinkError`.
pub uninterp spec fn spec_sink_failure(err: SinkError) -> SinkFailure;

/// The name of a variant, which is what derived `Debug` writes for a variant without fields.
pub open spec fn sink_failure_name(f: SinkFailure) -> Seq<char> {
    match f {
        SinkFailure::ChannelClosed => "ChannelClosed"@,
        SinkFailure::SendFailed => "SendFailed"@,
    }
}

/// Calls the `Debug` formatting of `SinkError` of `sender_sink`, which is
/// derived for an enum of two variants without fields: the text is the name
/// of the error's variant, named by [`spec_sink_failure`].
#[verifier::external_body]
fn sink_error_debug_text(err: &SinkError) -> (r: String)
    ensures
        r@ == sink_failure_name(spec_sink_failure(*err)),
{
    format!("{:?}", err)
}

impl From<SinkError> for StomperError {
    /// An error naming the sink's failure: `Error sending to Sink: ` and the
    /// name of the `SinkError` variant.
    fn from(err: SinkError) -> (e: StomperError)
        ensures
            e.message@ == "Error sending to Sink: "@ + sink_failure_name(spec_sink_failure(err)),
    {
        let text = sink_error_debug_text(&err);
        let mut message = String::from_str("Error sending to Sink: ");
        message.append(text.as_str());
        StomperError { message }
    }
}

impl vstd::std_specs::convert::FromSpecImpl<SinkError> for StomperError {
    open spec fn obeys_from_spec() -> bool {
        false
    }

    open spec fn from_spec(v: SinkError) -> StomperError {
        arbitrary()
    }
}

/// The message a `StompParseError` of `stomp_parser` was made with.
pub uninterp spec fn spec_parse_error_message(err: StompParseError) -> Seq<char>;

/// Calls `StompParseError::message` of `stomp_parser`, which gives back the
/// message the error was made with, named by [`spec_parse_error_message`].
#[verifier::external_body]
fn parse_error_message(err: &StompParseError) -> (r: String)
    ensures
        r@ == spec_parse_error_message(*err),
{
    err.message().to_owned()
}

impl From<StompParseError> for StomperError {
    /// An error carrying the parser's message.
    fn from(err: StompParseError) -> (e: StomperError)
        ensures
            e.message@ == spec_parse_error_message(err),
    {
        StomperError { message: parse_error_message(&err) }
    }
}

impl vstd::std_specs::convert::FromSpecImpl<StompParseError> for StomperError {
    open spec fn obeys_from_spec() -> bool {
        false
    }

    open spec fn from_spec(v: StompParseError) -> StomperError {
        arbitrary()
    }
}

impl From<Infallible> for StomperError {
    /// Never called, as no value of `Infallible` exists.
    fn from(_never: Infallible) -> (e: StomperError)
        ensures
            e.message@ == "Should have been Infallible!"@,
    {
        StomperError::new("Should have been Infallible!")
    }
}

impl vstd::std_specs::convert::FromSpecImpl<Infallible> for StomperError {
    open spec fn obeys_from_spec() -> bool {
        false
    }

    open spec fn from_spec(v: Infallible) -> StomperError {
        arbitrary()
    }
}

/// Calls the `Debug` formatting of `str`: the text in double quotes, with
/// special characters escaped. The exact escaping is not restated here; the
/// result is named by [`spec_debug_str`].
#[verifier::external_body]
pub(crate) fn debug_str(text: &str) -> (r: String)
    ensures
        r@ == spec_debug_str(text@),
{
    format!("{:?}", text)
}

/// What `Debug` formatting of a `str` gives for the given characters.
pub uninterp spec fn spec_debug_str(text: Seq<char>) -> Seq<char>;

/// Raised when a text names no known client command.
#[derive(Debug, PartialEq, Eq, Clone)]
pub struct UnknownCommandError {
    pub text: String,
}

impl UnknownCommandError {
    /// The text shown for this error: `Unknown command ` and the quoted text.
    pub fn to_string(&self) -> (s: String)
        ensures
            s@ == "Unknown command "@ + spec_debug_str(self.text@),
    {
        let quoted = debug_str(self.text.as_str());
        let mut s = String::from_str("Unknown command ");
        s.append(quoted.as_str());
        s
    }
}

} // verus!
