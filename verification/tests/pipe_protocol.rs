use can_link::config::{parse_config, CanServerConfig};
use can_link::errors::CanError;
use can_link::frame::CanFrame;
use can_link::pipe::{
    config_pipe_name, payload_step, prefix_step, read_pipe_name, sanitize_channel,
    write_pipe_name, PipeMode, PipeProtocol, ReadOutcome,
};
use can_link::wire::encode_frame;

const REQUIRED_VERSION: &str = "0.2.0";

fn config_doc(version: &str) -> Vec<u8> {
    let mut doc = String::from("{\"bitrate\": 500000, \"version\": \"");
    doc.push_str(version);
    doc.push_str("\"}");
    doc.into_bytes()
}

#[test]
fn config_document_parses_with_both_member_orders() {
    let c = parse_config(b"{\"bitrate\": 500000, \"version\": \"0.2.0\"}").unwrap();
    assert_eq!(c, CanServerConfig { bitrate: Some(500000), version: String::from("0.2.0") });
    let c = parse_config(b" { \"version\" : \"1.0.0\" , \"bitrate\" : null } ").unwrap();
    assert_eq!(c, CanServerConfig { bitrate: None, version: String::from("1.0.0") });
}

#[test]
fn config_document_accepts_the_largest_bitrate() {
    let c = parse_config(b"{\"bitrate\":4294967295,\"version\":\"v\"}").unwrap();
    assert_eq!(c.bitrate, Some(u32::MAX));
}

#[test]
fn malformed_config_documents_are_protocol_errors() {
    // not an object at all
    assert_eq!(parse_config(b"hello"), Err(CanError::ProtocolError));
    // unterminated object
    assert_eq!(parse_config(b"{\"bitrate\": 1, \"version\": \"x\""), Err(CanError::ProtocolError));
    // missing member
    assert_eq!(parse_config(b"{\"bitrate\": 1}"), Err(CanError::ProtocolError));
    // unknown key in place of version
    assert_eq!(parse_config(b"{\"bitrate\": 1, \"verzion\": \"x\"}"), Err(CanError::ProtocolError));
    // wrong value type for version
    assert_eq!(parse_config(b"{\"bitrate\": 1, \"version\": 2}"), Err(CanError::ProtocolError));
    // wrong value type for bitrate
    assert_eq!(
        parse_config(b"{\"bitrate\": \"fast\", \"version\": \"x\"}"),
        Err(CanError::ProtocolError)
    );
    // bitrate that does not fit u32
    assert_eq!(
        parse_config(b"{\"bitrate\": 4294967296, \"version\": \"x\"}"),
        Err(CanError::ProtocolError)
    );
    // leading zero
    assert_eq!(parse_config(b"{\"bitrate\": 01, \"version\": \"x\"}"), Err(CanError::ProtocolError));
    // escape in the version string
    assert_eq!(
        parse_config(b"{\"bitrate\": 1, \"version\": \"a\\nb\"}"),
        Err(CanError::ProtocolError)
    );
    // trailing garbage after the object
    assert_eq!(
        parse_config(b"{\"bitrate\": 1, \"version\": \"x\"} extra"),
        Err(CanError::ProtocolError)
    );
}

#[test]
fn handshake_with_matching_version_opens_the_channel() {
    let mut p = PipeProtocol::new(PipeMode::Duplex);
    p.on_config(&config_doc("0.2.0"), REQUIRED_VERSION).unwrap();
    assert_eq!(p.bitrate(), Ok(Some(500000)));
    assert!(p.begin_read().is_ok());
    assert!(p.begin_write().is_ok());
}

#[test]
fn version_mismatch_names_both_versions_and_blocks_frame_io() {
    let mut p = PipeProtocol::new(PipeMode::Duplex);
    let r = p.on_config(&config_doc("0.1.9"), REQUIRED_VERSION);
    assert_eq!(
        r,
        Err(CanError::VersionMismatch {
            found: String::from("0.1.9"),
            required: String::from("0.2.0"),
        })
    );
    assert_eq!(p.begin_read(), Err(CanError::InvalidOperation));
    assert_eq!(p.begin_write(), Err(CanError::InvalidOperation));
    assert_eq!(p.bitrate(), Err(CanError::InvalidOperation));
}

#[test]
fn malformed_handshake_document_is_a_protocol_error() {
    let mut p = PipeProtocol::new(PipeMode::Duplex);
    assert_eq!(p.on_config(b"{oops", REQUIRED_VERSION), Err(CanError::ProtocolError));
    assert_eq!(p.begin_read(), Err(CanError::InvalidOperation));
}

#[test]
fn mode_restrictions_are_fixed_at_open_time() {
    let mut r = PipeProtocol::new(PipeMode::ReadOnly);
    r.on_config(&config_doc("0.2.0"), REQUIRED_VERSION).unwrap();
    assert!(r.begin_read().is_ok());
    assert_eq!(r.begin_write(), Err(CanError::InvalidOperation));

    let mut w = PipeProtocol::new(PipeMode::WriteOnly);
    w.on_config(&config_doc("0.2.0"), REQUIRED_VERSION).unwrap();
    assert!(w.begin_write().is_ok());
    assert_eq!(w.begin_read(), Err(CanError::InvalidOperation));
}

#[test]
fn closed_pipe_at_the_length_prefix_is_unexpected_eof() {
    assert_eq!(prefix_step(&ReadOutcome::Closed), Err(CanError::UnexpectedEof));
    assert_eq!(prefix_step(&ReadOutcome::Bytes(vec![9])), Ok(9));
}

#[test]
fn zero_payload_bytes_after_a_prefix_are_unexpected_eof() {
    // the pipe closed before the owed payload arrived
    assert_eq!(payload_step(5, &ReadOutcome::Closed), Err(CanError::UnexpectedEof));
    // a prefix owing nothing yields zero bytes, not a silent empty frame
    assert_eq!(payload_step(0, &ReadOutcome::Bytes(vec![])), Err(CanError::UnexpectedEof));
}

#[test]
fn payload_bytes_decode_to_the_frame_or_a_protocol_error() {
    let f = CanFrame::new(0x77, &[0xAB]).unwrap();
    let enc = encode_frame(&f);
    let got = payload_step(enc.len() as u8, &ReadOutcome::Bytes(enc)).unwrap();
    assert_eq!(got, f);
    assert_eq!(
        payload_step(3, &ReadOutcome::Bytes(vec![0xFF, 0xFF, 0xFF])),
        Err(CanError::ProtocolError)
    );
}

#[test]
fn channel_names_are_sanitized_for_pipe_names() {
    assert_eq!(sanitize_channel("COM5"), String::from("COM5"));
    assert_eq!(sanitize_channel("can 0!"), String::from("can_0_"));
    assert_eq!(sanitize_channel("a-b.c"), String::from("a_b_c"));
}

#[test]
fn pipe_names_follow_the_naming_scheme() {
    assert_eq!(read_pipe_name("COM5"), String::from(r"\\.\pipe\can_COM5_out"));
    assert_eq!(write_pipe_name("COM5"), String::from(r"\\.\pipe\can_COM5_in"));
    assert_eq!(config_pipe_name("dev/can0"), String::from(r"\\.\pipe\can_dev_can0_config_out"));
}
