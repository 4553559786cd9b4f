//! Parsing of client frames from raw bytes.
pub mod model;

use crate::text::{decimal_bytes, is_digit, law_parse_u32_reads_decimal, lemma_decimal_bytes, lemma_first_index_at, bytes_eq, decode_text, find_byte, first_index_from, lemma_first_index_from, parse_u32, spec_parse_u32};
use model::{spec_parse_command, spec_parse_version, ClientCommand, StompVersion};
use crate::error::spec_debug_str;
use vstd::prelude::*;
use vstd::string::StringSliceAdditionalSpecFns;
use vstd::utf8::*;

verus! {

/// Errors created by the frame parser, which can have a cause
#[derive(Debug, PartialEq, Eq, Clone)]
pub enum StompError {
    /// An error without a cause
    Initial { message: String },
    /// An error with a cause, given by its description
    Caused { message: String, cause: String },
}

impl StompError {
    /// The message of the error, whether or not it has a cause.
    pub open spec fn spec_message(self) -> Seq<char> {
        match self {
            StompError::Initial { message } => message@,
            StompError::Caused { message, .. } => message@,
        }
    }

    /// Creates an error with a cause.
    pub fn with_cause(message: String, cause: String) -> (e: StompError)
        ensures
            e == (StompError::Caused { message, cause }),
    {
        StompError::Caused { message, cause }
    }

    /// Creates an error without a cause.
    pub fn new(message: String) -> (e: StompError)
        ensures
            e == (StompError::Initial { message }),
    {
        StompError::Initial { message }
    }

    /// The message of the error.
    pub fn message(&self) -> (m: &String)
        ensures
            m@ == self.spec_message(),
    {
        match self {
            StompError::Initial { message } => message,
            StompError::Caused { message, .. } => message,
        }
    }

    /// The text shown for this error: `Stomp Error: ` and the message, followed
    /// by `, cause by ` and the cause where there is one.
    pub fn to_string(&self) -> (s: String)
        ensures
            s@ == (match self {
                StompError::Initial { message } => "Stomp Error: "@ + message@,
                StompError::Caused { message, cause } => "Stomp Error: "@ + message@
                    + ", cause by "@ + cause@,
            }),
    {
        let mut s = String::from_str("Stomp Error: ");
        match self {
            StompError::Initial { message } => {
                s.append(message.as_str());
            },
            StompError::Caused { message, cause } => {
                s.append(message.as_str());
                s.append(", cause by ");
                s.append(cause.as_str());
            },
        }
        s
    }
}


/// A line of bytes without its terminating carriage return, if it has one.
pub open spec fn strip_cr(line: Seq<u8>) -> Seq<u8> {
    if line.len() > 0 && line.last() == 13u8 {
        line.drop_last()
    } else {
        line
    }
}

/// The line that starts at `from`: the bytes up to the next line feed, without
/// a trailing carriage return, and the position just after that line feed.
/// There is no line where no line feed follows `from`.
pub open spec fn line_at(bytes: Seq<u8>, from: int) -> Option<(Seq<u8>, int)> {
    match first_index_from(bytes, from, 10u8) {
        Some(p) => Some((strip_cr(bytes.subrange(from, p)), p + 1)),
        None => None,
    }
}

/// The line starting at `index`, and where the next one starts.
fn next_slice(bytes: &[u8], index: usize) -> (r: Option<(&[u8], usize)>)
    ensures
        r matches Some((s, n)) ==> line_at(bytes@, index as int) == Some((s@, n as int)),
        r is None ==> line_at(bytes@, index as int) is None,
{
    match find_byte(bytes, index, 10u8) {
        None => None,
        Some(p) => {
            proof {
                lemma_first_index_from(bytes@, index as int, 10u8);
            }
            let len = bytes.len();
            assert(p < len);
            let section = &bytes[index..p];
            if section.len() > 0 && section[section.len() - 1] == 13u8 {
                let trimmed = &section[0..section.len() - 1];
                assert(trimmed@ =~= section@.drop_last());
                Some((trimmed, p + 1))
            } else {
                Some((section, p + 1))
            }
        },
    }
}

/// The command that starts a frame: the first line must be a known command in
/// UTF-8. On success the result holds the one-based position of the first byte
/// after the command line, and the command.
pub open spec fn spec_read_client_command(bytes: Seq<u8>) -> Result<(int, ClientCommand), Seq<char>> {
    match line_at(bytes, 0) {
        None => Err("No Command found"@),
        Some((line, next)) => if !valid_utf8(line) {
            Err("Command ist not utf-8"@)
        } else {
            match spec_parse_command(decode_utf8(line)) {
                None => Err("Command not recognised"@),
                Some(c) => Ok((next + 1, c)),
            }
        },
    }
}

/// A command line may end in `\r\n` as well as in `\n`: both give the same
/// command, or the same error, and the position after the line moves by one.
pub proof fn law_command_line_accepts_cr(command: Seq<u8>, rest: Seq<u8>)
    requires
        forall|i: int| 0 <= i < command.len() ==> command[i] != 10u8,
        command.len() > 0 ==> command.last() != 13u8,
    ensures
        match (
            spec_read_client_command(command + seq![13u8, 10u8] + rest),
            spec_read_client_command(command + seq![10u8] + rest),
        ) {
            (Ok((i, c)), Ok((j, d))) => c == d && i == j + 1,
            (Err(m), Err(n)) => m == n,
            _ => false,
        },
{
    let a = command + seq![13u8, 10u8] + rest;
    let b = command + seq![10u8] + rest;
    let n = command.len() as int;
    lemma_first_index_at(a, 0, n + 1, 10u8);
    lemma_first_index_at(b, 0, n, 10u8);
    assert(a.subrange(0, n + 1) =~= command + seq![13u8]);
    assert((command + seq![13u8]).drop_last() =~= command);
    assert(b.subrange(0, n) =~= command);
}

/// The text of UTF-8 bytes; any other bytes are refused with the cause.
fn as_str(bytes: &[u8]) -> (r: Result<&str, StompError>)
    ensures
        r is Ok <==> valid_utf8(bytes@),
        r matches Ok(s) ==> s@ == decode_utf8(bytes@),
        r matches Err(e) ==> e.spec_message() == "Command ist not utf-8"@ && e is Caused,
{
    match decode_text(bytes) {
        Ok(text) => Ok(text),
        Err(cause) => Err(StompError::with_cause(String::from_str("Command ist not utf-8"), cause)),
    }
}

/// The command named by a text; any other text is refused with the cause.
fn parse_client_command(text: &str) -> (r: Result<ClientCommand, StompError>)
    ensures
        r matches Ok(c) ==> spec_parse_command(text@) == Some(c),
        r matches Err(e) ==> spec_parse_command(text@) is None && e == (StompError::Caused {
            message: e->Caused_message,
            cause: e->Caused_cause,
        }) && e.spec_message() == "Command not recognised"@ && e->Caused_cause@ == "Unknown command "@
            + spec_debug_str(text@),
{
    match ClientCommand::parse(text) {
        Ok(command) => Ok(command),
        Err(unknown) => Err(StompError::with_cause(String::from_str("Command not recognised"), unknown.to_string())),
    }
}

/// Reads the command line of a frame.
pub fn read_client_command(bytes: &[u8]) -> (r: Result<(usize, ClientCommand), StompError>)
    requires
        bytes@.len() < usize::MAX,
    ensures
        r matches Ok((i, c)) ==> spec_read_client_command(bytes@) == Ok::<(int, ClientCommand), Seq<char>>((i as int, c)),
        r matches Err(e) ==> spec_read_client_command(bytes@) == Err::<(int, ClientCommand), Seq<char>>(e.spec_message()),
        match r {
            Err(StompError::Caused { message, cause }) => message@ == "Command not recognised"@ ==> (line_at(
                bytes@,
                0,
            ) is Some && cause@ == "Unknown command "@ + spec_debug_str(decode_utf8(line_at(bytes@, 0).unwrap().0))),
            _ => true,
        },
{
    match next_slice(bytes, 0) {
        None => Err(StompError::new(String::from_str("No Command found"))),
        Some((section, next)) => {
            proof {
                lemma_first_index_from(bytes@, 0, 10u8);
            }
            match as_str(section) {
                Err(e) => {
                    proof {
                        reveal_strlit("Command ist not utf-8");
                        reveal_strlit("Command not recognised");
                        assert("Command ist not utf-8"@[8] != "Command not recognised"@[8]);
                    }
                    Err(e)
                },
                Ok(text) => match parse_client_command(text) {
                    Err(e) => Err(e),
                    Ok(command) => Ok((next + 1, command)),
                },
            }
        },
    }
}


/// The version named by a piece of a header value, which must be UTF-8.
pub open spec fn spec_version_of(piece: Seq<u8>) -> Option<StompVersion> {
    if valid_utf8(piece) {
        spec_parse_version(decode_utf8(piece))
    } else {
        None
    }
}

/// The comma-separated versions of an `accept-version` value, read from
/// `start`; `None` if any piece names no version.
pub open spec fn spec_versions_from(value: Seq<u8>, start: int) -> Option<Seq<StompVersion>>
    decreases value.len() - start,
{
    match first_index_from(value, start, 44u8) {
        None => match spec_version_of(value.subrange(start, value.len() as int)) {
            Some(v) => Some(seq![v]),
            None => None,
        },
        Some(c) => match spec_version_of(value.subrange(start, c)) {
            None => None,
            Some(v) => {
                proof {
                    lemma_first_index_from(value, start, 44u8);
                }
                match spec_versions_from(value, c + 1) {
                    Some(rest) => Some(seq![v] + rest),
                    None => None,
                }
            },
        },
    }
}

fn version_of(piece: &[u8]) -> (r: Option<StompVersion>)
    ensures
        r == spec_version_of(piece@),
{
    match decode_text(piece) {
        Err(_) => None,
        Ok(text) => match StompVersion::parse(text) {
            Ok(v) => Some(v),
            Err(_) => None,
        },
    }
}

fn parse_versions_from(value: &[u8], start: usize) -> (r: Option<Vec<StompVersion>>)
    requires
        start <= value@.len(),
    ensures
        r matches Some(vs) ==> spec_versions_from(value@, start as int) == Some(vs@),
        r is None ==> spec_versions_from(value@, start as int) is None,
    decreases value@.len() - start,
{
    match find_byte(value, start, 44u8) {
        None => {
            let piece = &value[start..value.len()];
            match version_of(piece) {
                Some(v) => {
                    let mut vs = Vec::new();
                    vs.push(v);
                    assert(vs@ =~= seq![v]);
                    Some(vs)
                },
                None => None,
            }
        },
        Some(c) => {
            proof {
                lemma_first_index_from(value@, start as int, 44u8);
            }
            let piece = &value[start..c];
            match version_of(piece) {
                None => None,
                Some(v) => match parse_versions_from(value, c + 1) {
                    None => None,
                    Some(mut rest) => {
                        let ghost tail = rest@;
                        rest.insert(0, v);
                        assert(rest@ =~= seq![v] + tail);
                        Some(rest)
                    },
                },
            }
        },
    }
}

/// The two numbers of a `heart-beat` value `cx,cy`, in that order.
pub open spec fn spec_parse_heart_beat(value: Seq<u8>) -> Option<(u32, u32)> {
    match first_index_from(value, 0, 44u8) {
        None => None,
        Some(c) => match (
            spec_parse_u32(value.subrange(0, c)),
            spec_parse_u32(value.subrange(c + 1, value.len() as int)),
        ) {
            (Some(a), Some(b)) => Some((a, b)),
            _ => None,
        },
    }
}

fn parse_heart_beat(value: &[u8]) -> (r: Option<(u32, u32)>)
    ensures
        r == spec_parse_heart_beat(value@),
{
    match find_byte(value, 0, 44u8) {
        None => None,
        Some(c) => {
            proof {
                lemma_first_index_from(value@, 0, 44u8);
            }
            let first = parse_u32(&value[0..c]);
            let second = parse_u32(&value[c + 1..value.len()]);
            match (first, second) {
                (Some(a), Some(b)) => Some((a, b)),
                _ => None,
            }
        },
    }
}

/// A `heart-beat` value made of two numbers in decimal and a comma between
/// them is read as those two numbers, for every pair of `u32`, zeros included.
pub proof fn law_heart_beat_reads_decimal(x: u32, y: u32)
    ensures
        spec_parse_heart_beat(decimal_bytes(x as nat) + seq![44u8] + decimal_bytes(y as nat)) == Some((x, y)),
{
    let dx = decimal_bytes(x as nat);
    let dy = decimal_bytes(y as nat);
    let v = dx + seq![44u8] + dy;
    lemma_decimal_bytes(x as nat);
    lemma_decimal_bytes(y as nat);
    law_parse_u32_reads_decimal(x);
    law_parse_u32_reads_decimal(y);
    assert forall|k: int| 0 <= k < dx.len() implies v[k] != 44u8 by {
        assert(v[k] == dx[k]);
        assert(is_digit(dx[k]));
    }
    assert(v[dx.len() as int] == 44u8);
    lemma_first_index_at(v, 0, dx.len() as int, 44u8);
    assert(v.subrange(0, dx.len() as int) =~= dx);
    assert(v.subrange(dx.len() as int + 1, v.len() as int) =~= dy);
}

/// The headers of a CONNECT frame that the parser keeps, as seen so far.
pub struct ConnectHeaders {
    pub accept_version: Option<Seq<StompVersion>>,
    pub heart_beat: Option<(u32, u32)>,
    pub login: Option<Seq<char>>,
    pub passcode: Option<Seq<char>>,
}

/// No header seen yet.
pub open spec fn no_headers() -> ConnectHeaders {
    ConnectHeaders { accept_version: None, heart_beat: None, login: None, passcode: None }
}

/// The effect of one header line. The line must be UTF-8 and hold a `:`;
/// the name before it selects the header, the rest is its value. For each of
/// `accept-version`, `heart-beat`, `login` and `passcode` the first occurrence
/// counts and later ones are ignored; other headers are ignored.
pub open spec fn spec_apply_header(line: Seq<u8>, acc: ConnectHeaders) -> Result<ConnectHeaders, Seq<char>> {
    if !valid_utf8(line) {
        Err("Command ist not utf-8"@)
    } else {
        match first_index_from(line, 0, 58u8) {
            None => Err("Header has no ':'"@),
            Some(c) => {
                let key = line.subrange(0, c);
                let value = line.subrange(c + 1, line.len() as int);
                if key == "accept-version".spec_bytes() {
                    if acc.accept_version is Some {
                        Ok(acc)
                    } else {
                        match spec_versions_from(value, 0) {
                            Some(vs) => Ok(ConnectHeaders { accept_version: Some(vs), ..acc }),
                            None => Err("Unknown version in accept-version"@),
                        }
                    }
                } else if key == "heart-beat".spec_bytes() {
                    if acc.heart_beat is Some {
                        Ok(acc)
                    } else {
                        match spec_parse_heart_beat(value) {
                            Some(hb) => Ok(ConnectHeaders { heart_beat: Some(hb), ..acc }),
                            None => Err("Malformed heart-beat"@),
                        }
                    }
                } else if key == "login".spec_bytes() || key == "passcode".spec_bytes() {
                    if !valid_utf8(value) {
                        Err("Command ist not utf-8"@)
                    } else if key == "login".spec_bytes() {
                        if acc.login is Some {
                            Ok(acc)
                        } else {
                            Ok(ConnectHeaders { login: Some(decode_utf8(value)), ..acc })
                        }
                    } else {
                        if acc.passcode is Some {
                            Ok(acc)
                        } else {
                            Ok(ConnectHeaders { passcode: Some(decode_utf8(value)), ..acc })
                        }
                    }
                } else {
                    Ok(acc)
                }
            },
        }
    }
}

/// The headers from the line starting at `from` up to the first empty line,
/// or to the last complete line where no empty line follows.
pub open spec fn spec_headers_from(bytes: Seq<u8>, from: int, acc: ConnectHeaders) -> Result<ConnectHeaders, Seq<char>>
    decreases bytes.len() - from,
{
    match first_index_from(bytes, from, 10u8) {
        None => Ok(acc),
        Some(p) => {
            let line = strip_cr(bytes.subrange(from, p));
            if line.len() == 0 {
                Ok(acc)
            } else {
                match spec_apply_header(line, acc) {
                    Err(m) => Err(m),
                    Ok(next) => {
                        proof {
                            lemma_first_index_from(bytes, from, 10u8);
                        }
                        spec_headers_from(bytes, p + 1, next)
                    },
                }
            }
        },
    }
}

/// The header values held while parsing.
struct HeaderValues {
    accept_version: Option<Vec<StompVersion>>,
    heart_beat: Option<(u32, u32)>,
    login: Option<String>,
    passcode: Option<String>,
}

impl View for HeaderValues {
    type V = ConnectHeaders;

    closed spec fn view(&self) -> ConnectHeaders {
        ConnectHeaders {
            accept_version: match self.accept_version {
                Some(vs) => Some(vs@),
                None => None,
            },
            heart_beat: self.heart_beat,
            login: match self.login {
                Some(l) => Some(l@),
                None => None,
            },
            passcode: match self.passcode {
                Some(p) => Some(p@),
                None => None,
            },
        }
    }
}

fn apply_header(line: &[u8], acc: &mut HeaderValues) -> (r: Result<(), StompError>)
    ensures
        spec_apply_header(line@, old(acc)@) matches Ok(h) ==> r is Ok && final(acc)@ == h,
        spec_apply_header(line@, old(acc)@) matches Err(m) ==> r matches Err(e) && e.spec_message() == m,
{
    if let Err(e) = as_str(line) {
        return Err(e);
    }
    match find_byte(line, 0, 58u8) {
        None => Err(StompError::new(String::from_str("Header has no ':'"))),
        Some(c) => {
            proof {
                lemma_first_index_from(line@, 0, 58u8);
            }
            let key = &line[0..c];
            let value = &line[c + 1..line.len()];
            if bytes_eq(key, "accept-version".as_bytes()) {
                if acc.accept_version.is_none() {
                    match parse_versions_from(value, 0) {
                        Some(vs) => {
                            acc.accept_version = Some(vs);
                        },
                        None => {
                            return Err(StompError::new(String::from_str("Unknown version in accept-version")));
                        },
                    }
                }
                Ok(())
            } else if bytes_eq(key, "heart-beat".as_bytes()) {
                if acc.heart_beat.is_none() {
                    match parse_heart_beat(value) {
                        Some(hb) => {
                            acc.heart_beat = Some(hb);
                        },
                        None => {
                            return Err(StompError::new(String::from_str("Malformed heart-beat")));
                        },
                    }
                }
                Ok(())
            } else {
                let is_login = bytes_eq(key, "login".as_bytes());
                let is_passcode = bytes_eq(key, "passcode".as_bytes());
                if is_login || is_passcode {
                    match as_str(value) {
                        Err(e) => Err(e),
                        Ok(text) => {
                            if is_login {
                                if acc.login.is_none() {
                                    acc.login = Some(text.to_owned());
                                }
                            } else {
                                if acc.passcode.is_none() {
                                    acc.passcode = Some(text.to_owned());
                                }
                            }
                            Ok(())
                        },
                    }
                } else {
                    Ok(())
                }
            }
        },
    }
}


/// A text held as a `String`, compared with the one in the header model.
pub open spec fn same_text(s: Option<String>, t: Option<Seq<char>>) -> bool {
    match (s, t) {
        (Some(a), Some(b)) => a@ == b,
        (None, None) => true,
        _ => false,
    }
}

/// The content of a CONNECT frame.
#[derive(Debug)]
pub struct ConnectData {
    /// The versions the client accepts.
    pub accept_version: Vec<StompVersion>,
    /// The heart-beat interval the client wants from the server (`cy`).
    pub heartbeat_requested: u32,
    /// The heart-beat interval the client can supply (`cx`).
    pub heartbeat_supplied: u32,
    pub login: Option<String>,
    pub passcode: Option<String>,
}

/// A CONNECT frame built from the headers read: without `accept-version`
/// the client supports version 1.0 only, as STOMP 1.2 prescribes; without
/// `heart-beat` both intervals are 0.
pub open spec fn connect_frame_from(f: ConnectData, h: ConnectHeaders) -> bool {
    &&& f.accept_version@ == (match h.accept_version {
        Some(vs) => vs,
        None => seq![StompVersion::V1_0],
    })
    &&& (f.heartbeat_supplied, f.heartbeat_requested) == (match h.heart_beat {
        Some(hb) => hb,
        None => (0u32, 0u32),
    })
    &&& same_text(f.login, h.login)
    &&& same_text(f.passcode, h.passcode)
}

/// Reads the headers of a CONNECT frame from `initial_index` on.
fn init_connect_frame(bytes: &[u8], initial_index: usize) -> (r: Result<ConnectData, StompError>)
    requires
        initial_index <= bytes@.len(),
    ensures
        r matches Ok(f) ==> spec_headers_from(bytes@, initial_index as int, no_headers()) matches Ok(h)
            && connect_frame_from(f, h),
        r matches Err(e) ==> spec_headers_from(bytes@, initial_index as int, no_headers()) == Err::<
            ConnectHeaders,
            Seq<char>,
        >(e.spec_message()),
{
    let mut acc = HeaderValues { accept_version: None, heart_beat: None, login: None, passcode: None };
    let mut index = initial_index;
    let mut done = false;
    while !done
        invariant
            index <= bytes@.len(),
            !done ==> spec_headers_from(bytes@, initial_index as int, no_headers())
                == spec_headers_from(bytes@, index as int, acc@),
            done ==> spec_headers_from(bytes@, initial_index as int, no_headers()) == Ok::<
                ConnectHeaders,
                Seq<char>,
            >(acc@),
        decreases bytes@.len() - index + (if done { 0int } else { 1int }),
    {
        match next_slice(bytes, index) {
            None => {
                done = true;
            },
            Some((line, next)) => {
                proof {
                    lemma_first_index_from(bytes@, index as int, 10u8);
                }
                if line.len() == 0 {
                    done = true;
                } else {
                    match apply_header(line, &mut acc) {
                        Err(e) => {
                            return Err(e);
                        },
                        Ok(()) => {},
                    }
                    index = next;
                }
            },
        }
    }
    let ghost h = acc@;
    let accept_version = match acc.accept_version {
        Some(vs) => vs,
        None => {
            let mut vs = Vec::new();
            vs.push(StompVersion::V1_0);
            assert(vs@ =~= seq![StompVersion::V1_0]);
            vs
        },
    };
    assert(accept_version@ == (match h.accept_version {
        Some(vs) => vs,
        None => seq![StompVersion::V1_0],
    }));
    let (heartbeat_supplied, heartbeat_requested) = match acc.heart_beat {
        Some(hb) => hb,
        None => (0u32, 0u32),
    };
    ConnectData { accept_version, heartbeat_requested, heartbeat_supplied, login: acc.login, passcode: acc.passcode }
        .into_ok()
}

impl ConnectData {
    fn into_ok(self) -> (r: Result<ConnectData, StompError>)
        ensures
            r == Ok::<ConnectData, StompError>(self),
    {
        Ok(self)
    }
}

/// A frame, as far as the headers of its command have been read: the command
/// line, then the headers up to the first empty line.
pub open spec fn spec_parse_frame(bytes: Seq<u8>) -> Result<ConnectHeaders, Seq<char>> {
    match spec_read_client_command(bytes) {
        Err(m) => Err(m),
        Ok((pos, _)) => spec_headers_from(bytes, pos - 1, no_headers()),
    }
}

/// A client frame parsed from its bytes, which it keeps.
#[derive(Debug)]
pub struct Frame {
    // Stores the bytes of the message
    bytes: Vec<u8>,
    connect: ConnectData,
}

/// A header line of a frame, as text.
#[derive(Debug)]
pub struct FrameHeader<'a> {
    text: &'a str,
}

impl Frame {
    /// The CONNECT content of the frame.
    pub closed spec fn spec_connect(&self) -> ConnectData {
        self.connect
    }

    /// The bytes the frame was parsed from.
    pub closed spec fn spec_frame_bytes(&self) -> Seq<u8> {
        self.bytes@
    }

    /// Parses a frame. Only the CONNECT command is handled, so the bytes may
    /// not start with another known command.
    pub fn new(bytes: Vec<u8>) -> (r: Result<Frame, StompError>)
        requires
            bytes@.len() < usize::MAX,
            spec_read_client_command(bytes@) matches Ok((_, c)) ==> c == ClientCommand::CONNECT,
        ensures
            r matches Ok(f) ==> spec_parse_frame(bytes@) matches Ok(h) && connect_frame_from(
                f.spec_connect(),
                h,
            ) && f.spec_frame_bytes() == bytes@,
            r matches Err(e) ==> spec_parse_frame(bytes@) == Err::<ConnectHeaders, Seq<char>>(
                e.spec_message(),
            ),
    {
        let (byte_index, _command) = match read_client_command(bytes.as_slice()) {
            Ok(found) => found,
            Err(e) => {
                return Err(e);
            },
        };
        proof {
            lemma_first_index_from(bytes@, 0, 10u8);
        }
        let connect = match init_connect_frame(bytes.as_slice(), byte_index - 1) {
            Ok(connect) => connect,
            Err(e) => {
                return Err(e);
            },
        };
        Ok(Frame { bytes, connect })
    }

    /// The command of the frame.
    pub fn command(&self) -> (c: ClientCommand)
        ensures
            c == ClientCommand::CONNECT,
    {
        ClientCommand::CONNECT
    }

    /// The CONNECT content of the frame.
    pub fn connect_frame(&self) -> (f: &ConnectData)
        ensures
            *f == self.spec_connect(),
    {
        &self.connect
    }
}

/// Parses a client frame; see [`Frame::new`].
pub fn parse_client_frame(bytes: Vec<u8>) -> (r: Result<Frame, StompError>)
    requires
        bytes@.len() < usize::MAX,
        spec_read_client_command(bytes@) matches Ok((_, c)) ==> c == ClientCommand::CONNECT,
    ensures
        r matches Ok(f) ==> spec_parse_frame(bytes@) matches Ok(h) && connect_frame_from(
            f.spec_connect(),
            h,
        ) && f.spec_frame_bytes() == bytes@,
        r matches Err(e) ==> spec_parse_frame(bytes@) == Err::<ConnectHeaders, Seq<char>>(
            e.spec_message(),
        ),
{
    Frame::new(bytes)
}

} // verus!
