use beslink::message::{
    calculate_message_checksum, validate_packet_checksum, BesMessage, MessageTypes, BES_SYNC,
};
use beslink::BESLinkError;

fn known_frames() -> Vec<Vec<u8>> {
    vec![
        vec![0xBE, 0x50, 0x00, 0x03, 0x00, 0x00, 0x01, 0xED],
        vec![0xBE, 0x50, 0x00, 0x01, 0x01, 0xEF],
        vec![0xBE, 0x53, 0x00, 0x01, 0x00, 0xED],
        vec![0xBE, 0x65, 0x02, 0x01, 0x11, 0xC8],
        vec![0xBE, 0x65, 0x03, 0x01, 0x12, 0xC6],
        vec![
            0xBE, 0x62, 0xC1, 0x0B, 0x00, 0x80, 0x00, 0x00, 0xAB, 0x77, 0x7F, 0xF4, 0x00, 0x00,
            0x00, 0xFE,
        ],
        vec![
            0xBE, 0x62, 0xC2, 0x0B, 0x00, 0x80, 0x00, 0x00, 0x34, 0x90, 0x61, 0xF9, 0x01, 0x00,
            0x00, 0x73,
        ],
        vec![
            0xBE, 0x61, 0x07, 0x0C, 0x00, 0x00, 0x00, 0x3C, 0x00, 0x00, 0x0D, 0x00, 0x00, 0x80,
            0x00, 0x00, 0x04,
        ],
        vec![
            0xBE, 0x03, 0x06, 0x08, 0x00, 0xF0, 0x0F, 0x3C, 0x00, 0x10, 0x00, 0x00, 0xE5,
        ],
        vec![
            0xBE, 0x03, 0x05, 0x08, 0x00, 0xE0, 0x0F, 0x3C, 0x00, 0x10, 0x00, 0x00, 0xF6,
        ],
    ]
}

#[test]
fn test_from() {
    let expected_vec: Vec<u8> = vec![BES_SYNC, 0x55, 0x3A, 0x00, 0xB2];
    let msg = BesMessage::from(expected_vec.clone());
    assert_eq!(expected_vec, msg.to_vec())
}

#[test]
fn test_to_vec() {
    let test = BesMessage {
        sync: BES_SYNC,
        type1: MessageTypes::ProgrammerStart,
        payload: vec![0x3A, 0x00],
        checksum: 0xB2,
    };
    let expected_vec: Vec<u8> = vec![BES_SYNC, 0x55, 0x3A, 0x00, 0xB2];
    assert_eq!(expected_vec, test.to_vec())
}

#[test]
fn message_test_calculate_packet_checksum() {
    for mut v in known_frames() {
        let old_checksum = v.pop().unwrap();
        let new_checksum = calculate_message_checksum(&v);
        assert_eq!(old_checksum, new_checksum);
    }
}

#[test]
fn test_validate_packet_checksum() {
    for v in known_frames() {
        assert!(validate_packet_checksum(&v).is_ok())
    }
}

#[test]
fn checksum_of_nothing_is_ff() {
    assert_eq!(calculate_message_checksum(&[]), 0xFF);
}

#[test]
fn checksum_wraps_modulo_256() {
    // 0xFF + 0x02 = 0x101, which counts as 0x01
    assert_eq!(calculate_message_checksum(&[0xFF, 0x02]), 0xFE);
    assert_eq!(calculate_message_checksum(&[0x80, 0x80]), 0xFF);
}

#[test]
fn checksum_counts_the_sync_marker() {
    assert_eq!(calculate_message_checksum(&[0xBE, 0x50, 0x00, 0x03, 0x00, 0x00, 0x01]), 0xED);
    assert_eq!(calculate_message_checksum(&[0x50, 0x00, 0x03, 0x00, 0x00, 0x01]), 0xAB);
    assert_eq!(calculate_message_checksum(&[0xBE, 0x65, 0x02, 0x01, 0x11]), 0xC8);
    assert_eq!(
        calculate_message_checksum(&[
            0xBE, 0x03, 0x05, 0x08, 0x00, 0xE0, 0x0F, 0x3C, 0x00, 0x10, 0x00, 0x00
        ]),
        0xF6
    );
}

#[test]
fn wrong_checksum_is_reported_with_frame_and_values() {
    let frame: Vec<u8> = vec![0xBE, 0x65, 0x02, 0x01, 0x11, 0xC9];
    match validate_packet_checksum(&frame) {
        Err(BESLinkError::BadChecksumError { failed_packet, got, wanted }) => {
            assert_eq!(failed_packet, frame);
            assert_eq!(got, 0xC9);
            assert_eq!(wanted, 0xC8);
        }
        other => panic!("expected a checksum error, got {:?}", other),
    }
}

#[test]
fn every_code_survives_decode_and_encode() {
    for code in 0..=255u8 {
        let t = MessageTypes::from(code);
        assert_eq!(u8::from(t), code);
    }
}

#[test]
fn defined_codes_decode_to_their_types() {
    assert_eq!(MessageTypes::from(0x00), MessageTypes::DeviceCommand);
    assert_eq!(MessageTypes::from(0x03), MessageTypes::FlashRead);
    assert_eq!(MessageTypes::from(0x50), MessageTypes::Sync);
    assert_eq!(MessageTypes::from(0x53), MessageTypes::StartProgrammer);
    assert_eq!(MessageTypes::from(0x54), MessageTypes::ProgrammerRunning);
    assert_eq!(MessageTypes::from(0x55), MessageTypes::ProgrammerStart);
    assert_eq!(MessageTypes::from(0x60), MessageTypes::ProgrammerInit);
    assert_eq!(MessageTypes::from(0x61), MessageTypes::EraseBurnStart);
    assert_eq!(MessageTypes::from(0x62), MessageTypes::FlashBurnData);
    assert_eq!(MessageTypes::from(0x65), MessageTypes::FlashCommand);
    assert_eq!(MessageTypes::from(0x66), MessageTypes::UnknownORInfo);
}

#[test]
fn unknown_code_is_kept_and_not_taken_for_a_defined_type() {
    let frame: Vec<u8> = vec![0xBE, 0x77, 0x01, 0x02, 0x00];
    let msg = BesMessage::from(frame.clone());
    assert_eq!(msg.type1, MessageTypes::Unrecognized(0x77));
    assert_ne!(msg.type1, MessageTypes::UnknownORInfo);
    assert_eq!(msg.to_vec(), frame);
}

#[test]
fn decode_splits_a_frame_into_its_fields() {
    let msg = BesMessage::from(vec![0xBE, 0x50, 0x00, 0x03, 0x00, 0x00, 0x01, 0xED]);
    assert_eq!(msg.sync, 0xBE);
    assert_eq!(msg.type1, MessageTypes::Sync);
    assert_eq!(msg.payload, vec![0x00, 0x03, 0x00, 0x00, 0x01]);
    assert_eq!(msg.checksum, 0xED);
}

#[test]
fn shortest_frame_has_an_empty_payload() {
    let msg = BesMessage::from(vec![0xBE, 0x00, 0x41]);
    assert_eq!(msg.type1, MessageTypes::DeviceCommand);
    assert!(msg.payload.is_empty());
    assert_eq!(msg.checksum, 0x41);
}

#[test]
fn round_trip_rebuilds_the_message() {
    let mut msg = BesMessage {
        sync: BES_SYNC,
        type1: MessageTypes::FlashCommand,
        payload: vec![0x02, 0x01, 0x11],
        checksum: 0,
    };
    msg.set_checksum();
    assert_eq!(msg.checksum, 0xC8);
    let frame = msg.to_vec();
    assert_eq!(*frame.last().unwrap(), calculate_message_checksum(&frame[..frame.len() - 1]));
    assert_eq!(BesMessage::from(frame), msg);
}

#[test]
fn set_checksum_overwrites_a_wrong_value() {
    let mut msg = BesMessage {
        sync: BES_SYNC,
        type1: MessageTypes::DeviceCommand,
        payload: vec![0x00, 0x01, 0xF1],
        checksum: 0xEB,
    };
    msg.set_checksum();
    assert_eq!(msg.checksum, 0x4F);
    assert!(validate_packet_checksum(&msg.to_vec()).is_ok());
}

#[test]
fn clone_keeps_every_field() {
    let msg = BesMessage {
        sync: 0x12,
        type1: MessageTypes::Unrecognized(0x99),
        payload: vec![1, 2, 3],
        checksum: 7,
    };
    assert_eq!(msg.clone(), msg);
}
