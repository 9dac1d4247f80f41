use can_link::errors::CanError;
use can_link::frame::CanFrame;
use can_link::native::{NativeFrame, NativeId};
use can_link::wire::{decode_frame, encode_frame, encode_wire_record};

#[test]
fn wire_record_has_exact_length_prefix_and_newline() {
    let f = CanFrame::new(0x7FF, &[0xDE, 0xAD]).unwrap();
    let encoded = encode_frame(&f);
    let record = encode_wire_record(&f);
    assert_eq!(record[0] as usize, encoded.len());
    assert_eq!(&record[1..record.len() - 1], &encoded[..]);
    assert_eq!(*record.last().unwrap(), b'\n');
}

#[test]
fn encoding_of_known_frame_is_exact() {
    let f = CanFrame::new(0x7FF, &[0xDE, 0xAD]).unwrap();
    // flags, four little-endian ID bytes, dlc, payload
    assert_eq!(encode_frame(&f), vec![0x00, 0xFF, 0x07, 0x00, 0x00, 0x02, 0xDE, 0xAD]);
    let record = encode_wire_record(&f);
    assert_eq!(record, vec![0x08, 0x00, 0xFF, 0x07, 0x00, 0x00, 0x02, 0xDE, 0xAD, 0x0A]);
}

#[test]
fn data_frame_round_trips_through_the_wire_format() {
    let f = CanFrame::new_eff(0x1234_5678 & 0x1FFF_FFFF, &[1, 2, 3, 4, 5, 6, 7, 8]).unwrap();
    let decoded = decode_frame(&encode_frame(&f)).unwrap();
    assert_eq!(decoded, f);
}

#[test]
fn remote_and_error_frames_round_trip_through_the_wire_format() {
    let r = CanFrame::new_remote(0x2A, 6, false).unwrap();
    assert_eq!(decode_frame(&encode_frame(&r)).unwrap(), r);
    let e = CanFrame::new_error(0x1ABC_DEF0 & 0x1FFF_FFFF).unwrap();
    assert_eq!(decode_frame(&encode_frame(&e)).unwrap(), e);
}

#[test]
fn round_trip_drops_only_the_timestamp() {
    let mut f = CanFrame::new(0x55, &[9, 8]).unwrap();
    f.set_timestamp(Some(42));
    let decoded = decode_frame(&encode_frame(&f)).unwrap();
    assert_eq!(decoded.timestamp(), None);
    assert_eq!(decoded.id(), f.id());
    assert_eq!(decoded.data(), f.data());
    assert_eq!(decoded.dlc(), f.dlc());
    assert_eq!(decoded.is_extended(), f.is_extended());
    assert_eq!(decoded.is_rtr(), f.is_rtr());
    assert_eq!(decoded.is_error(), f.is_error());
}

#[test]
fn truncated_and_oversized_encodings_are_protocol_errors() {
    assert_eq!(decode_frame(&[]), Err(CanError::ProtocolError));
    assert_eq!(decode_frame(&[0, 1, 2]), Err(CanError::ProtocolError));
    // dlc byte says 3 but only 2 payload bytes follow
    assert_eq!(decode_frame(&[0, 1, 0, 0, 0, 3, 9, 9]), Err(CanError::ProtocolError));
    // dlc byte above 8
    assert_eq!(
        decode_frame(&[0, 0, 0, 0, 0, 9, 0, 0, 0, 0, 0, 0, 0, 0, 0]),
        Err(CanError::ProtocolError)
    );
}

#[test]
fn stray_flag_bits_are_protocol_errors() {
    assert_eq!(decode_frame(&[8, 1, 0, 0, 0, 0]), Err(CanError::ProtocolError));
    // remote and error flags combined
    assert_eq!(decode_frame(&[6, 1, 0, 0, 0, 0]), Err(CanError::ProtocolError));
}

#[test]
fn out_of_range_ids_are_protocol_errors() {
    // standard frame with a 12-bit identifier
    assert_eq!(decode_frame(&[0, 0x00, 0x08, 0, 0, 0]), Err(CanError::ProtocolError));
    // extended frame above 29 bits
    assert_eq!(decode_frame(&[1, 0, 0, 0, 0x20, 0]), Err(CanError::ProtocolError));
}

#[test]
fn remote_frame_with_nonzero_payload_byte_is_a_protocol_error() {
    // rtr flag with dlc 2, second payload byte nonzero
    assert_eq!(decode_frame(&[2, 5, 0, 0, 0, 2, 0, 1]), Err(CanError::ProtocolError));
    // the all-zero payload decodes
    let ok = decode_frame(&[2, 5, 0, 0, 0, 2, 0, 0]).unwrap();
    assert!(ok.is_rtr());
    assert_eq!(ok.dlc(), 2);
}

#[test]
fn native_conversion_round_trips_all_three_kinds() {
    let data = CanFrame::new(0x321, &[1, 2]).unwrap();
    assert_eq!(CanFrame::from_native(&data.to_native()).unwrap(), data);
    let data_ext = CanFrame::new_eff(0x1FFF_0000, &[3]).unwrap();
    assert_eq!(CanFrame::from_native(&data_ext.to_native()).unwrap(), data_ext);
    let remote = CanFrame::new_remote(0x44, 5, true).unwrap();
    assert_eq!(CanFrame::from_native(&remote.to_native()).unwrap(), remote);
    let error = CanFrame::new_error(0xABCDE).unwrap();
    assert_eq!(CanFrame::from_native(&error.to_native()).unwrap(), error);
}

#[test]
fn native_frames_map_to_the_expected_kinds() {
    let n = NativeFrame::Data { id: NativeId::Standard(0x100), data: vec![7, 7] };
    let f = CanFrame::from_native(&n).unwrap();
    assert!(!f.is_extended() && !f.is_rtr() && !f.is_error());
    assert_eq!(f.id(), 0x100);
    assert_eq!(f.data(), &[7u8, 7][..]);

    let n = NativeFrame::Remote { id: NativeId::Extended(0x1000_0000), dlc: 3 };
    let f = CanFrame::from_native(&n).unwrap();
    assert!(f.is_rtr() && f.is_extended());
    assert_eq!(f.dlc(), 3);

    let n = NativeFrame::Error { id: 0x42 };
    let f = CanFrame::from_native(&n).unwrap();
    assert!(f.is_error());
    assert_eq!(f.id(), 0x42);
}

#[test]
fn malformed_native_frames_are_validation_errors() {
    let n = NativeFrame::Data { id: NativeId::Standard(0x800), data: vec![] };
    assert_eq!(CanFrame::from_native(&n), Err(CanError::ValidationError));
    let n = NativeFrame::Remote { id: NativeId::Standard(0x1), dlc: 9 };
    assert_eq!(CanFrame::from_native(&n), Err(CanError::ValidationError));
    let n = NativeFrame::Error { id: 0x2000_0000 };
    assert_eq!(CanFrame::from_native(&n), Err(CanError::ValidationError));
}
