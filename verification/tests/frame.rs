use little_stomper::frame::model::{ClientCommand, Header, StompVersion};
use little_stomper::frame::{parse_client_frame, read_client_command, Frame, StompError};
use std::convert::TryFrom;
use std::str::FromStr;

#[test]
fn it_works() {
    let frame = Frame::new(
        "CONNECT\nversion:1.2\nheart-beat:10000,\
    10000\n\n\u{0000}"
            .as_bytes()
            .to_owned(),
    );

    assert!(matches!(frame.unwrap().command(), ClientCommand::CONNECT));
}

#[test]
fn read_client_command_works() {
    let result = read_client_command("CONNECT\n".as_bytes());

    assert_eq!((9, ClientCommand::CONNECT), result.unwrap());
}

#[test]
fn read_client_command_accepts_cr() {
    let result = read_client_command("CONNECT\r\n".as_bytes());

    assert_eq!((10, ClientCommand::CONNECT), result.unwrap());
}

#[test]
fn commands_parse_correctly() {
    assert_eq!(ClientCommand::CONNECT, ClientCommand::from_str("CONNECT").unwrap());
}

#[test]
fn versions_parse_correctly() {
    assert_eq!(StompVersion::V1_0, StompVersion::from_str("1.0").unwrap());
    assert_eq!(StompVersion::V1_1, StompVersion::from_str("1.1").unwrap());
    assert_eq!(StompVersion::V1_2, StompVersion::from_str("1.2").unwrap());
}

#[test]
fn headers_parse_correctly() {
    assert_eq!(Header::Custom, Header::try_from("content-length: 1234").unwrap());
}

#[test]
fn header_without_colon_is_refused() {
    let error = Header::try_from("content-length 1234").unwrap_err();
    assert_eq!("Header has no ':'", error.message());
}

#[test]
fn header_bytes_must_be_utf8() {
    let bytes: &[u8] = &[0xff, 0x3a];
    let error = Header::try_from(bytes).unwrap_err();
    assert_eq!("Error parsing header", error.message());
}

#[test]
fn every_command_parses_from_its_name() {
    let names = [
        ("CONNECT", ClientCommand::CONNECT),
        ("STOMP", ClientCommand::STOMP),
        ("SEND", ClientCommand::SEND),
        ("SUBSCRIBE", ClientCommand::SUBSCRIBE),
        ("UNSUBSCRIBE", ClientCommand::UNSUBSCRIBE),
        ("ACK", ClientCommand::ACK),
        ("NACK", ClientCommand::NACK),
        ("BEGIN", ClientCommand::BEGIN),
        ("COMMIT", ClientCommand::COMMIT),
        ("ABORT", ClientCommand::ABORT),
        ("DISCONNECT", ClientCommand::DISCONNECT),
    ];
    for (name, command) in names.iter() {
        assert_eq!(*command, ClientCommand::from_str(name).unwrap());
    }
    assert_eq!("connect", ClientCommand::from_str("connect").unwrap_err().text);
}

#[test]
fn unknown_version_is_refused() {
    assert_eq!("2.0", StompVersion::from_str("2.0").unwrap_err().text);
}

#[test]
fn read_client_command_errors() {
    assert_eq!(
        "No Command found",
        read_client_command(b"CONNECT").unwrap_err().message()
    );
    assert_eq!(
        "Command not recognised",
        read_client_command(b"FOO\n").unwrap_err().message()
    );
    assert_eq!(
        "Command ist not utf-8",
        read_client_command(&[0xff, 0x0a]).unwrap_err().message()
    );
    assert_eq!(
        Err(StompError::Caused {
            message: "Command not recognised".to_owned(),
            cause: "Unknown command \"FOO\"".to_owned(),
        }),
        read_client_command(b"FOO\r\n")
    );
}

#[test]
fn connect_frame_reads_its_headers() {
    let frame = parse_client_frame(
        b"CONNECT\r\naccept-version:1.1,1.2\r\nheart-beat:10,20\r\nlogin:me\r\npasscode:secret\r\nlogin:other\r\n\r\n\x00"
            .to_vec(),
    )
    .unwrap();
    let connect = frame.connect_frame();

    assert_eq!(vec![StompVersion::V1_1, StompVersion::V1_2], connect.accept_version);
    assert_eq!(10, connect.heartbeat_supplied);
    assert_eq!(20, connect.heartbeat_requested);
    assert_eq!(Some("me".to_owned()), connect.login);
    assert_eq!(Some("secret".to_owned()), connect.passcode);
}

#[test]
fn connect_frame_defaults() {
    let frame = parse_client_frame(b"CONNECT\nhost:here\n\n\x00".to_vec()).unwrap();
    let connect = frame.connect_frame();

    assert_eq!(vec![StompVersion::V1_0], connect.accept_version);
    assert_eq!(0, connect.heartbeat_supplied);
    assert_eq!(0, connect.heartbeat_requested);
    assert_eq!(None, connect.login);
    assert_eq!(None, connect.passcode);
}

#[test]
fn connect_frame_errors() {
    assert_eq!(
        "Header has no ':'",
        parse_client_frame(b"CONNECT\nnocolon\n\n\x00".to_vec())
            .unwrap_err()
            .message()
    );
    assert_eq!(
        "Unknown version in accept-version",
        parse_client_frame(b"CONNECT\naccept-version:1.2,9\n\n\x00".to_vec())
            .unwrap_err()
            .message()
    );
    assert_eq!(
        "Malformed heart-beat",
        parse_client_frame(b"CONNECT\nheart-beat:10\n\n\x00".to_vec())
            .unwrap_err()
            .message()
    );
    assert_eq!(
        "Malformed heart-beat",
        parse_client_frame(b"CONNECT\nheart-beat:1,99999999999\n\n\x00".to_vec())
            .unwrap_err()
            .message()
    );
}

#[test]
fn stomp_error_display() {
    assert_eq!(
        "Stomp Error: boom",
        StompError::new("boom".to_owned()).to_string()
    );
    assert_eq!(
        "Stomp Error: boom, cause by fuse",
        StompError::with_cause("boom".to_owned(), "fuse".to_owned()).to_string()
    );
}
