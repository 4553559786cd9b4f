//! The words of a STOMP frame: client commands, protocol versions and header names.
use crate::error::UnknownCommandError;
use crate::frame::StompError;
use crate::text::{decode_text, str_eq};
use std::convert::TryFrom;
use vstd::prelude::*;
use vstd::utf8::*;

verus! {

/// A STOMP client command, i.e. one that can be sent by the client
#[allow(non_camel_case_types)]
#[derive(Debug, Eq, PartialEq, Structural, Clone, Copy)]
pub enum ClientCommand {
    CONNECT,
    STOMP,
    SEND,
    SUBSCRIBE,
    UNSUBSCRIBE,
    ACK,
    NACK,
    BEGIN,
    COMMIT,
    ABORT,
    DISCONNECT,
}

/// The command that a text names exactly, if any.
pub open spec fn spec_parse_command(text: Seq<char>) -> Option<ClientCommand> {
    if text == "CONNECT"@ {
        Some(ClientCommand::CONNECT)
    } else if text == "STOMP"@ {
        Some(ClientCommand::STOMP)
    } else if text == "SEND"@ {
        Some(ClientCommand::SEND)
    } else if text == "SUBSCRIBE"@ {
        Some(ClientCommand::SUBSCRIBE)
    } else if text == "UNSUBSCRIBE"@ {
        Some(ClientCommand::UNSUBSCRIBE)
    } else if text == "ACK"@ {
        Some(ClientCommand::ACK)
    } else if text == "NACK"@ {
        Some(ClientCommand::NACK)
    } else if text == "BEGIN"@ {
        Some(ClientCommand::BEGIN)
    } else if text == "COMMIT"@ {
        Some(ClientCommand::COMMIT)
    } else if text == "ABORT"@ {
        Some(ClientCommand::ABORT)
    } else if text == "DISCONNECT"@ {
        Some(ClientCommand::DISCONNECT)
    } else {
        None
    }
}

impl ClientCommand {
    /// Reads a command from its exact name; any other text is an [`UnknownCommandError`] holding it.
    pub fn parse(text: &str) -> (r: Result<ClientCommand, UnknownCommandError>)
        ensures
            r matches Ok(c) ==> spec_parse_command(text@) == Some(c),
            r matches Err(e) ==> spec_parse_command(text@) is None && e.text@ == text@,
    {
        if str_eq(text, "CONNECT") {
            Ok(ClientCommand::CONNECT)
        } else if str_eq(text, "STOMP") {
            Ok(ClientCommand::STOMP)
        } else if str_eq(text, "SEND") {
            Ok(ClientCommand::SEND)
        } else if str_eq(text, "SUBSCRIBE") {
            Ok(ClientCommand::SUBSCRIBE)
        } else if str_eq(text, "UNSUBSCRIBE") {
            Ok(ClientCommand::UNSUBSCRIBE)
        } else if str_eq(text, "ACK") {
            Ok(ClientCommand::ACK)
        } else if str_eq(text, "NACK") {
            Ok(ClientCommand::NACK)
        } else if str_eq(text, "BEGIN") {
            Ok(ClientCommand::BEGIN)
        } else if str_eq(text, "COMMIT") {
            Ok(ClientCommand::COMMIT)
        } else if str_eq(text, "ABORT") {
            Ok(ClientCommand::ABORT)
        } else if str_eq(text, "DISCONNECT") {
            Ok(ClientCommand::DISCONNECT)
        } else {
            Err(UnknownCommandError { text: text.to_owned() })
        }
    }
}

impl std::str::FromStr for ClientCommand {
    type Err = UnknownCommandError;

    /// Reads a command from its exact name; see [`ClientCommand::parse`].
    fn from_str(text: &str) -> (r: Result<ClientCommand, UnknownCommandError>)
        ensures
            r matches Ok(c) ==> spec_parse_command(text@) == Some(c),
            r matches Err(e) ==> spec_parse_command(text@) is None && e.text@ == text@,
    {
        ClientCommand::parse(text)
    }
}

/// The versions of the STOMP protocol.
#[allow(non_camel_case_types)]
#[derive(Debug, Eq, PartialEq, Structural, Clone, Copy)]
pub enum StompVersion {
    V1_0,
    V1_1,
    V1_2,
}

/// Raised when a text names no known protocol version.
#[derive(Debug, PartialEq, Eq, Clone)]
pub struct UnknownVersionError {
    pub text: String,
}

/// The version that a text names exactly (`1.0`, `1.1` or `1.2`), if any.
pub open spec fn spec_parse_version(text: Seq<char>) -> Option<StompVersion> {
    if text == "1.0"@ {
        Some(StompVersion::V1_0)
    } else if text == "1.1"@ {
        Some(StompVersion::V1_1)
    } else if text == "1.2"@ {
        Some(StompVersion::V1_2)
    } else {
        None
    }
}

impl StompVersion {
    /// Reads a version from its exact name.
    pub fn parse(text: &str) -> (r: Result<StompVersion, UnknownVersionError>)
        ensures
            r matches Ok(v) ==> spec_parse_version(text@) == Some(v),
            r matches Err(e) ==> spec_parse_version(text@) is None && e.text@ == text@,
    {
        if str_eq(text, "1.0") {
            Ok(StompVersion::V1_0)
        } else if str_eq(text, "1.1") {
            Ok(StompVersion::V1_1)
        } else if str_eq(text, "1.2") {
            Ok(StompVersion::V1_2)
        } else {
            Err(UnknownVersionError { text: text.to_owned() })
        }
    }
}

impl std::str::FromStr for StompVersion {
    type Err = UnknownVersionError;

    /// Reads a version from its exact name; see [`StompVersion::parse`].
    fn from_str(text: &str) -> (r: Result<StompVersion, UnknownVersionError>)
        ensures
            r matches Ok(v) ==> spec_parse_version(text@) == Some(v),
            r matches Err(e) ==> spec_parse_version(text@) is None && e.text@ == text@,
    {
        StompVersion::parse(text)
    }
}

/// The headers that STOMP 1.2 defines, and `Custom` for any other.
#[derive(Debug, Eq, PartialEq, Structural, Clone, Copy)]
pub enum Header {
    AcceptVersion,
    ContentLength,
    ContentType,
    Destination,
    HeartBeat,
    Host,
    Id,
    Login,
    Message,
    MessageId,
    Passcode,
    Receipt,
    ReceiptId,
    Server,
    Session,
    Subscription,
    Transaction,
    Version,
    Custom,
}

/// Whether a text contains the character `:`.
pub open spec fn has_colon(text: Seq<char>) -> bool {
    exists|i: int| 0 <= i < text.len() && text[i] == ':'
}

impl Header {
    /// Reads a header line. A line without `:` is refused; any other line is
    /// taken as a `Custom` header.
    pub fn parse_text(value: &str) -> (r: Result<Header, StompError>)
        ensures
            r matches Ok(h) ==> has_colon(value@) && h == Header::Custom,
            r matches Err(e) ==> !has_colon(value@) && e is Initial && e.spec_message() == "Header has no ':'"@,
    {
        let ghost chars = value@;
        proof {
            vstd::utf8::encode_utf8_decode_utf8(chars);
        }
        let mut found = false;
        for c in it: value.chars()
            invariant
                it.seq() == chars,
                found == (exists|k: int| 0 <= k < it.index() && chars[k] == ':'),
        {
            if c == ':' {
                found = true;
            }
        }
        if found {
            Ok(Header::Custom)
        } else {
            Err(StompError::new(String::from_str("Header has no ':'")))
        }
    }

    /// Reads a header line from bytes, which must be valid UTF-8 and then as for [`Header::parse_text`].
    pub fn parse_bytes(value: &[u8]) -> (r: Result<Header, StompError>)
        ensures
            r matches Ok(h) ==> valid_utf8(value@) && has_colon(decode_utf8(value@)) && h
                == Header::Custom,
            r matches Err(e) ==> !valid_utf8(value@) && e is Caused && e.spec_message() == "Error parsing header"@
                || valid_utf8(value@) && !has_colon(decode_utf8(value@)) && e is Initial && e.spec_message()
                == "Header has no ':'"@,
    {
        match decode_text(value) {
            Err(cause) => Err(StompError::with_cause(String::from_str("Error parsing header"), cause)),
            Ok(text) => Header::parse_text(text),
        }
    }
}

impl<'a> TryFrom<&'a str> for Header {
    type Error = StompError;

    /// Reads a header line; see [`Header::parse_text`].
    fn try_from(value: &'a str) -> (r: Result<Header, StompError>)
        ensures
            r matches Ok(h) ==> has_colon(value@) && h == Header::Custom,
            r matches Err(e) ==> !has_colon(value@) && e is Initial && e.spec_message() == "Header has no ':'"@,
    {
        Header::parse_text(value)
    }
}

impl<'a> TryFrom<&'a [u8]> for Header {
    type Error = StompError;

    /// Reads a header line from bytes; see [`Header::parse_bytes`].
    fn try_from(value: &'a [u8]) -> (r: Result<Header, StompError>)
        ensures
            r matches Ok(h) ==> valid_utf8(value@) && has_colon(decode_utf8(value@)) && h
                == Header::Custom,
            r matches Err(e) ==> !valid_utf8(value@) && e is Caused && e.spec_message() == "Error parsing header"@
                || valid_utf8(value@) && !has_colon(decode_utf8(value@)) && e is Initial && e.spec_message()
                == "Header has no ':'"@,
    {
        Header::parse_bytes(value)
    }
}

impl<'a> vstd::std_specs::convert::TryFromSpecImpl<&'a str> for Header {
    open spec fn obeys_try_from_spec() -> bool {
        false
    }

    open spec fn try_from_spec(v: &'a str) -> Result<Header, StompError> {
        arbitrary()
    }
}

impl<'a> vstd::std_specs::convert::TryFromSpecImpl<&'a [u8]> for Header {
    open spec fn obeys_try_from_spec() -> bool {
        false
    }

    open spec fn try_from_spec(v: &'a [u8]) -> Result<Header, StompError> {
        arbitrary()
    }
}

} // verus!
