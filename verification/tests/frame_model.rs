use can_link::errors::CanError;
use can_link::frame::CanFrame;

#[test]
fn standard_data_frame_keeps_id_and_payload() {
    let f = CanFrame::new(0x123, &[1, 2, 3]).unwrap();
    assert_eq!(f.id(), 0x123);
    assert_eq!(f.data(), &[1u8, 2, 3][..]);
    assert_eq!(f.dlc(), 3);
    assert!(!f.is_extended());
    assert!(!f.is_rtr());
    assert!(!f.is_error());
    assert_eq!(f.timestamp(), None);
}

#[test]
fn standard_id_boundary_is_accepted() {
    let f = CanFrame::new(0x7FF, &[]).unwrap();
    assert_eq!(f.id(), 0x7FF);
    assert!(!f.is_extended());
}

#[test]
fn standard_id_above_11_bits_is_rejected() {
    assert_eq!(CanFrame::new(0x800, &[1]), Err(CanError::ValidationError));
    assert_eq!(CanFrame::new(u32::MAX, &[]), Err(CanError::ValidationError));
}

#[test]
fn extended_id_boundary_is_accepted() {
    let f = CanFrame::new_eff(0x1FFF_FFFF, &[9]).unwrap();
    assert_eq!(f.id(), 0x1FFF_FFFF);
    assert!(f.is_extended());
}

#[test]
fn extended_id_above_29_bits_is_rejected() {
    assert_eq!(CanFrame::new_eff(0x2000_0000, &[]), Err(CanError::ValidationError));
}

#[test]
fn oversized_payload_is_rejected_for_every_constructor() {
    let nine = [0u8; 9];
    assert_eq!(CanFrame::new(0x1, &nine), Err(CanError::ValidationError));
    assert_eq!(CanFrame::new_eff(0x1, &nine), Err(CanError::ValidationError));
    assert_eq!(CanFrame::new_remote(0x1, 9, false), Err(CanError::ValidationError));
}

#[test]
fn eight_byte_payload_is_the_largest_accepted() {
    let eight = [7u8; 8];
    let f = CanFrame::new(0x1, &eight).unwrap();
    assert_eq!(f.dlc(), 8);
    assert_eq!(f.data(), &eight[..]);
}

#[test]
fn remote_frame_declares_length_with_zeroed_payload() {
    let f = CanFrame::new_remote(0x123, 4, false).unwrap();
    assert_eq!(f.id(), 0x123);
    assert_eq!(f.dlc(), 4);
    assert_eq!(f.data(), &[0u8, 0, 0, 0][..]);
    assert!(f.is_rtr());
    assert!(!f.is_extended());
    assert!(!f.is_error());
}

#[test]
fn remote_frame_id_space_is_validated() {
    assert_eq!(CanFrame::new_remote(0x800, 1, false), Err(CanError::ValidationError));
    assert!(CanFrame::new_remote(0x800, 1, true).is_ok());
    assert_eq!(CanFrame::new_remote(0x2000_0000, 1, true), Err(CanError::ValidationError));
}

#[test]
fn error_frame_is_payload_less_with_diagnostic_id() {
    let f = CanFrame::new_error(0x1FFF_FFFF).unwrap();
    assert_eq!(f.id(), 0x1FFF_FFFF);
    assert_eq!(f.dlc(), 0);
    assert_eq!(f.data(), &[][..]);
    assert!(f.is_error());
    assert!(!f.is_rtr());
    assert!(!f.is_extended());
}

#[test]
fn error_frame_id_above_29_bits_is_rejected() {
    assert_eq!(CanFrame::new_error(0x2000_0000), Err(CanError::ValidationError));
}

#[test]
fn timestamp_is_the_sole_mutable_field() {
    let mut f = CanFrame::new(0x10, &[5]).unwrap();
    assert_eq!(f.timestamp(), None);
    f.set_timestamp(Some(987654));
    assert_eq!(f.timestamp(), Some(987654));
    assert_eq!(f.id(), 0x10);
    assert_eq!(f.data(), &[5u8][..]);
    f.set_timestamp(None);
    assert_eq!(f.timestamp(), None);
}
