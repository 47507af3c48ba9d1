use nexrad::bytes::ByteReader;
use nexrad::messages::message_header::MessageHeader;
use nexrad::messages::{decode_message, decode_message_header, MessageType};
use nexrad::raw::{decode_archive2_header, Archive2Header};
use nexrad::Error;

fn message_header_bytes(segment_size: u16, message_type: u8) -> Vec<u8> {
    let mut bytes = vec![0xaa; 12];
    bytes.extend_from_slice(&segment_size.to_be_bytes());
    bytes.push(8);
    bytes.push(message_type);
    bytes.extend_from_slice(&0x0102u16.to_be_bytes());
    bytes.extend_from_slice(&19_000u16.to_be_bytes());
    bytes.extend_from_slice(&84_000_123u32.to_be_bytes());
    bytes.extend_from_slice(&3u16.to_be_bytes());
    bytes.extend_from_slice(&2u16.to_be_bytes());
    bytes
}

#[test]
fn archive_header_fields_follow_the_layout() {
    let mut bytes = Vec::new();
    bytes.extend_from_slice(b"AR2V0006.");
    bytes.extend_from_slice(b"736");
    bytes.extend_from_slice(&19_056u32.to_be_bytes());
    bytes.extend_from_slice(&84_298_123u32.to_be_bytes());
    bytes.extend_from_slice(b"KDMX");
    bytes.extend_from_slice(&[0xff, 0xff]);
    assert_eq!(bytes.len(), 26);
    let mut reader = ByteReader::new(&bytes);
    let header = decode_archive2_header(&mut reader).unwrap();
    assert_eq!(
        header,
        Archive2Header {
            tape_filename: *b"AR2V0006.",
            extension_number: *b"736",
            date: 19_056,
            time: 84_298_123,
            icao_of_radar: *b"KDMX",
        }
    );
    assert_eq!(reader.position(), 24);
}

#[test]
fn archive_header_needs_all_of_its_bytes() {
    let bytes = [0u8; 23];
    let mut reader = ByteReader::new(&bytes);
    assert_eq!(decode_archive2_header(&mut reader), Err(Error::UnexpectedEof));
    assert_eq!(reader.position(), 0);
}

#[test]
fn archive_header_is_read_at_the_position() {
    let mut bytes = vec![0u8; 3];
    bytes.extend_from_slice(b"AR2V0003.001");
    bytes.extend_from_slice(&[0, 0, 0, 1, 0, 0, 0, 2]);
    bytes.extend_from_slice(b"KTLX");
    let mut reader = ByteReader::new(&bytes);
    reader.seek(3).unwrap();
    let header = decode_archive2_header(&mut reader).unwrap();
    assert_eq!(header.tape_filename, *b"AR2V0003.");
    assert_eq!(header.extension_number, *b"001");
    assert_eq!(header.date, 1);
    assert_eq!(header.time, 2);
    assert_eq!(header.icao_of_radar, *b"KTLX");
    assert_eq!(reader.position(), 27);
}

#[test]
fn message_header_advances_by_its_width() {
    let mut bytes = message_header_bytes(1208, 31);
    bytes.extend_from_slice(&[1, 2, 3, 4]);
    let mut reader = ByteReader::new(&bytes);
    let header = decode_message_header(&mut reader).unwrap();
    assert_eq!(reader.position(), 28);
    assert_eq!(
        header,
        MessageHeader {
            segment_size: 1208,
            redundant_channel: 8,
            message_type: 31,
            sequence_number: 0x0102,
            date: 19_000,
            time: 84_000_123,
            segment_count: 3,
            segment_number: 2,
        }
    );
    assert_eq!(header.message_type(), MessageType::DigitalRadarData);
    assert_eq!(header.message_size_bytes(), 2416);
    assert_eq!(header.timestamp_millis(), 19_000 * 86_400_000 + 84_000_123);
}

#[test]
fn message_header_needs_all_of_its_bytes() {
    let bytes = message_header_bytes(1208, 31);
    let mut reader = ByteReader::new(&bytes[..27]);
    assert_eq!(decode_message_header(&mut reader), Err(Error::UnexpectedEof));
    assert_eq!(reader.position(), 0);
}

#[test]
fn largest_header_values_fit() {
    let header = MessageHeader {
        segment_size: u16::MAX,
        redundant_channel: 0,
        message_type: 2,
        sequence_number: 0,
        date: u16::MAX,
        time: u32::MAX,
        segment_count: 0,
        segment_number: 0,
    };
    assert_eq!(header.message_size_bytes(), 131_070);
    assert_eq!(header.timestamp_millis(), 65_535i64 * 86_400_000 + 4_294_967_295);
    assert_eq!(header.message_type(), MessageType::RdaStatusData);
}

#[test]
fn message_type_codes_round_trip() {
    for code in 0..=u8::MAX {
        let kind = MessageType::from_code(code);
        assert_eq!(kind.code(), code);
        match code {
            2 => assert_eq!(kind, MessageType::RdaStatusData),
            31 => assert_eq!(kind, MessageType::DigitalRadarData),
            _ => assert_eq!(kind, MessageType::Unrecognized(code)),
        }
        assert_eq!(kind.is_digital_radar_data(), code == 31);
    }
}

#[test]
fn unrecognized_message_keeps_its_header_and_is_stepped_over() {
    // 10 halfwords: the 16 bytes of the header proper and 4 bytes of body.
    let mut bytes = message_header_bytes(10, 77);
    bytes.extend_from_slice(&[0xde, 0xad, 0xbe, 0xef, 0x55]);
    let mut reader = ByteReader::new(&bytes);
    let message = decode_message(&mut reader).unwrap();
    assert_eq!(message.header.message_type, 77);
    assert_eq!(message.header.message_type(), MessageType::Unrecognized(77));
    assert_eq!(message.digital_radar_data, None);
    assert_eq!(reader.position(), 32);
    assert_eq!(reader.read_u8(), Ok(0x55));
}

#[test]
fn status_message_is_not_decoded_as_radar_data() {
    let mut bytes = message_header_bytes(8, 2);
    bytes.push(1);
    let mut reader = ByteReader::new(&bytes);
    let message = decode_message(&mut reader).unwrap();
    assert_eq!(message.header.message_type(), MessageType::RdaStatusData);
    assert_eq!(message.digital_radar_data, None);
    assert_eq!(reader.position(), 28);
}

#[test]
fn message_with_cut_body_is_an_unexpected_end() {
    let mut bytes = message_header_bytes(10, 77);
    bytes.extend_from_slice(&[1, 2, 3]);
    let mut reader = ByteReader::new(&bytes);
    assert_eq!(decode_message(&mut reader), Err(Error::UnexpectedEof));
    assert_eq!(reader.position(), 0);
}

#[test]
fn message_smaller_than_its_header_is_corrupt() {
    let bytes = message_header_bytes(7, 77);
    let mut reader = ByteReader::new(&bytes);
    assert_eq!(decode_message(&mut reader), Err(Error::CorruptMessage));
    assert_eq!(reader.position(), 0);
}

#[test]
fn message_without_header_is_an_unexpected_end() {
    let bytes = [0u8; 5];
    let mut reader = ByteReader::new(&bytes);
    assert_eq!(decode_message(&mut reader), Err(Error::UnexpectedEof));
    assert_eq!(reader.position(), 0);
}
