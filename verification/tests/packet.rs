use beslink::message::{BesMessage, MessageTypes};
use beslink::packet::{calculate_packet_checksum, decode_packet_length, PacketReader};
use beslink::BESLinkError;

#[test]
fn packet_test_calculate_packet_checksum() {
    let test_messages: Vec<Vec<u8>> = vec![
        vec![0xBE, 0x50, 0x00, 0x03, 0x00, 0x00, 0x01, 0xED],
        vec![0xBE, 0x50, 0x00, 0x01, 0x01, 0xEF],
        vec![0xBE, 0x53, 0x00, 0x01, 0x00, 0xED],
        vec![0xBE, 0x65, 0x02, 0x01, 0x11, 0xC8],
        vec![0xBE, 0x65, 0x03, 0x01, 0x12, 0xC6],
        vec![
            0xBE, 0x62, 0xC1, 0x0B, 0x00, 0x80, 0x00, 0x00, 0xAB, 0x77, 0x7F, 0xF4, 0x00, 0x00,
            0x00, 0xFE,
        ],
        vec![
            0xBE, 0x62, 0xC2, 0x0B, 0x00, 0x80, 0x00, 0x00, 0x34, 0x90, 0x61, 0xF9, 0x01, 0x00,
            0x00, 0x73,
        ],
        vec![
            0xBE, 0x61, 0x07, 0x0C, 0x00, 0x00, 0x00, 0x3C, 0x00, 0x00, 0x0D, 0x00, 0x00, 0x80,
            0x00, 0x00, 0x04,
        ],
        vec![
            0xBE, 0x03, 0x06, 0x08, 0x00, 0xF0, 0x0F, 0x3C, 0x00, 0x10, 0x00, 0x00, 0xE5,
        ],
        vec![
            0xBE, 0x03, 0x05, 0x08, 0x00, 0xE0, 0x0F, 0x3C, 0x00, 0x10, 0x00, 0x00, 0xF6,
        ],
    ];
    for mut v in test_messages {
        let old_checksum = v.pop().unwrap();
        let new_checksum = calculate_packet_checksum(&v);
        assert_eq!(old_checksum, new_checksum);
    }
}

#[test]
fn flash_command_length_follows_the_sub_code() {
    assert_eq!(decode_packet_length(&vec![0xBE, 0x65, 0x02]), 9);
    assert_eq!(decode_packet_length(&vec![0xBE, 0x65, 0x08]), 6);
    assert_eq!(decode_packet_length(&vec![0xBE, 0x65, 0x03]), 22);
    assert_eq!(decode_packet_length(&vec![0xBE, 0x65, 0x00]), 22);
}

#[test]
fn every_type_resolves_to_its_table_entry() {
    assert_eq!(decode_packet_length(&vec![0xBE, 0x50, 0x00]), 8);
    assert_eq!(decode_packet_length(&vec![0xBE, 0x53, 0x00]), 6);
    assert_eq!(decode_packet_length(&vec![0xBE, 0x54, 0x00]), 6);
    assert_eq!(decode_packet_length(&vec![0xBE, 0x55, 0x00]), 6);
    assert_eq!(decode_packet_length(&vec![0xBE, 0x60, 0x00]), 11);
    assert_eq!(decode_packet_length(&vec![0xBE, 0x61, 0x00]), 6);
    assert_eq!(decode_packet_length(&vec![0xBE, 0x62, 0x00]), 8);
    assert_eq!(decode_packet_length(&vec![0xBE, 0x03, 0x00]), 6);
}

#[test]
fn types_without_an_entry_resolve_to_the_minimal_length() {
    assert_eq!(decode_packet_length(&vec![0xBE, 0x00, 0x02]), 3);
    assert_eq!(decode_packet_length(&vec![0xBE, 0x66, 0x02]), 3);
    assert_eq!(decode_packet_length(&vec![0xBE, 0x77, 0x02]), 3);
    assert_eq!(decode_packet_length(&vec![0xBE, 0xFF, 0x08]), 3);
}

#[test]
fn too_few_bytes_resolve_to_the_minimal_length() {
    assert_eq!(decode_packet_length(&vec![]), 3);
    assert_eq!(decode_packet_length(&vec![0xBE]), 3);
    assert_eq!(decode_packet_length(&vec![0xBE, 0x50]), 3);
}

#[test]
fn length_is_resolved_from_the_first_three_bytes_alone() {
    assert_eq!(decode_packet_length(&vec![0xBE, 0x65, 0x02, 0x01, 0x11, 0xC8]), 9);
    assert_eq!(decode_packet_length(&vec![0x00, 0x50, 0x00, 0x00]), 8);
}

fn feed(reader: &mut PacketReader, bytes: &[u8]) -> Vec<Result<BesMessage, BESLinkError>> {
    let mut out = Vec::new();
    for b in bytes {
        if let Some(verdict) = reader.push_byte(*b) {
            out.push(verdict);
        }
    }
    out
}

#[test]
fn reader_hands_out_a_frame_with_its_last_byte() {
    let mut reader = PacketReader::new();
    let frame = [0xBE, 0x53, 0x00, 0x01, 0x00, 0xED];
    for b in &frame[..5] {
        assert!(reader.push_byte(*b).is_none());
    }
    match reader.push_byte(frame[5]) {
        Some(Ok(msg)) => {
            assert_eq!(msg.type1, MessageTypes::StartProgrammer);
            assert_eq!(msg.payload, vec![0x00, 0x01, 0x00]);
            assert_eq!(msg.to_vec(), frame.to_vec());
        }
        other => panic!("expected a message, got {:?}", other),
    }
}

#[test]
fn reader_drops_bytes_before_the_sync_marker() {
    let mut reader = PacketReader::new();
    let out = feed(&mut reader, &[0x00, 0x13, 0x37, 0xBE, 0x53, 0x00, 0x01, 0x00, 0xED]);
    assert_eq!(out.len(), 1);
    assert_eq!(out[0].as_ref().unwrap().to_vec(), vec![0xBE, 0x53, 0x00, 0x01, 0x00, 0xED]);
}

#[test]
fn reader_reports_a_wrong_checksum_and_starts_over() {
    let mut reader = PacketReader::new();
    let out = feed(
        &mut reader,
        &[0xBE, 0x53, 0x00, 0x01, 0x00, 0xEE, 0xBE, 0x53, 0x00, 0x01, 0x00, 0xED],
    );
    assert_eq!(out.len(), 2);
    match &out[0] {
        Err(BESLinkError::BadChecksumError { failed_packet, got, wanted }) => {
            assert_eq!(*failed_packet, vec![0xBE, 0x53, 0x00, 0x01, 0x00, 0xEE]);
            assert_eq!(*got, 0xEE);
            assert_eq!(*wanted, 0xED);
        }
        other => panic!("expected a checksum error, got {:?}", other),
    }
    assert!(out[1].is_ok());
}

#[test]
fn reader_reads_frames_back_to_back() {
    let mut reader = PacketReader::new();
    let mut stream = vec![0xBE, 0x50, 0x00, 0x03, 0x00, 0x00, 0x01, 0xED];
    stream.extend([0xBE, 0x65, 0x02, 0x01, 0x11, 0x00, 0x00, 0x00, 0xC8]);
    let out = feed(&mut reader, &stream);
    assert_eq!(out.len(), 2);
    assert_eq!(out[0].as_ref().unwrap().type1, MessageTypes::Sync);
    assert_eq!(out[1].as_ref().unwrap().type1, MessageTypes::FlashCommand);
    assert_eq!(out[1].as_ref().unwrap().payload.len(), 6);
}

#[test]
fn reader_takes_an_unknown_type_as_a_minimal_frame() {
    let mut reader = PacketReader::new();
    // 0xFF - (0xBE + 0x77) mod 256 = 0xCA
    let out = feed(&mut reader, &[0xBE, 0x77, 0xCA]);
    assert_eq!(out.len(), 1);
    let msg = out[0].as_ref().unwrap();
    assert_eq!(msg.type1, MessageTypes::Unrecognized(0x77));
    assert!(msg.payload.is_empty());
}

#[test]
fn reader_keeps_a_sync_marker_inside_a_frame() {
    let mut reader = PacketReader::new();
    // payload 0xBE 0x01 0x00; checksum 0xFF - (0xBE+0x53+0xBE+0x01) mod 256
    let out = feed(&mut reader, &[0xBE, 0x53, 0xBE, 0x01, 0x00, 0x2F]);
    assert_eq!(out.len(), 1);
    assert_eq!(out[0].as_ref().unwrap().payload, vec![0xBE, 0x01, 0x00]);
}

#[test]
fn reset_forgets_a_partial_frame() {
    let mut reader = PacketReader::new();
    assert!(feed(&mut reader, &[0xBE, 0x53, 0x00]).is_empty());
    reader.reset();
    let out = feed(&mut reader, &[0xBE, 0x53, 0x00, 0x01, 0x00, 0xED]);
    assert_eq!(out.len(), 1);
    assert!(out[0].is_ok());
}
