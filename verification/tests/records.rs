use nexrad::bytes::ByteReader;
use nexrad::raw::records::record_from;
use nexrad::raw::{decode_archive2_header, Decompressor, Record, RecordFramer, Uncompressed};
use nexrad::Error;

/// Undoes a made-up scheme: a payload is its bytes with 1 added to each, and
/// a payload that starts with 0xff is invalid.
struct Minus;

impl Decompressor for Minus {
    fn decompress(&self, payload: &[u8]) -> Option<Vec<u8>> {
        if payload.first() == Some(&0xff) {
            return None;
        }
        Some(payload.iter().map(|byte| byte.wrapping_sub(1)).collect())
    }
}

fn record_bytes(control_word: i32, payload: &[u8]) -> Vec<u8> {
    let mut bytes = control_word.to_be_bytes().to_vec();
    bytes.extend_from_slice(payload);
    bytes
}

#[test]
fn records_follow_each_other() {
    let mut bytes = record_bytes(3, &[1, 2, 3]);
    bytes.extend_from_slice(&record_bytes(2, &[9, 8]));
    let mut framer = RecordFramer::new(ByteReader::new(&bytes));
    assert!(!framer.is_finished());
    assert_eq!(framer.next_record(&Uncompressed), Ok(Some(Record { data: vec![1, 2, 3] })));
    assert!(!framer.is_finished());
    assert_eq!(framer.next_record(&Uncompressed), Ok(Some(Record { data: vec![9, 8] })));
    assert_eq!(framer.next_record(&Uncompressed), Ok(None));
    assert!(framer.is_finished());
    assert_eq!(framer.next_record(&Uncompressed), Ok(None));
}

#[test]
fn zero_control_word_ends_the_records() {
    let mut bytes = record_bytes(1, &[7]);
    bytes.extend_from_slice(&record_bytes(0, &[]));
    bytes.extend_from_slice(&record_bytes(1, &[8]));
    let mut framer = RecordFramer::new(ByteReader::new(&bytes));
    assert_eq!(framer.next_record(&Uncompressed), Ok(Some(Record { data: vec![7] })));
    assert_eq!(framer.next_record(&Uncompressed), Ok(None));
    assert!(framer.is_finished());
    assert_eq!(framer.next_record(&Uncompressed), Ok(None));
    assert_eq!(framer.next_frame(), Ok(None));
}

#[test]
fn empty_body_has_no_records() {
    let mut framer = RecordFramer::new(ByteReader::new(&[]));
    assert_eq!(framer.next_frame(), Ok(None));
    assert!(framer.is_finished());
}

#[test]
fn magnitude_of_the_control_word_counts() {
    let mut bytes = record_bytes(-2, &[4, 5]);
    bytes.extend_from_slice(&record_bytes(1, &[6]));
    let mut framer = RecordFramer::new(ByteReader::new(&bytes));
    assert_eq!(framer.next_frame(), Ok(Some(vec![4, 5])));
    assert_eq!(framer.next_frame(), Ok(Some(vec![6])));
    assert_eq!(framer.next_frame(), Ok(None));
}

#[test]
fn cut_control_word_is_an_unexpected_end() {
    let mut bytes = record_bytes(1, &[7]);
    bytes.extend_from_slice(&[0, 0, 0]);
    let mut framer = RecordFramer::new(ByteReader::new(&bytes));
    assert_eq!(framer.next_frame(), Ok(Some(vec![7])));
    assert_eq!(framer.next_frame(), Err(Error::UnexpectedEof));
    assert!(framer.is_finished());
    assert_eq!(framer.next_frame(), Ok(None));
}

#[test]
fn payload_beyond_the_buffer_is_a_corrupt_record() {
    let bytes = record_bytes(4, &[1, 2, 3]);
    let mut framer = RecordFramer::new(ByteReader::new(&bytes));
    assert_eq!(framer.next_record(&Uncompressed), Err(Error::CorruptRecord));
    assert!(framer.is_finished());
    assert_eq!(framer.next_record(&Uncompressed), Ok(None));
    for control_word in [i32::MIN, i32::MAX, -5, 5] {
        let bytes = record_bytes(control_word, &[1, 2, 3]);
        let mut framer = RecordFramer::new(ByteReader::new(&bytes));
        assert_eq!(framer.next_frame(), Err(Error::CorruptRecord));
    }
}

#[test]
fn decompressor_sees_the_payload_only() {
    let bytes = record_bytes(-3, &[11, 21, 31]);
    let mut framer = RecordFramer::new(ByteReader::new(&bytes));
    assert_eq!(framer.next_record(&Minus), Ok(Some(Record { data: vec![10, 20, 30] })));
}

#[test]
fn payload_that_does_not_decompress_ends_the_pass() {
    let mut bytes = record_bytes(2, &[0xff, 1]);
    bytes.extend_from_slice(&record_bytes(1, &[5]));
    let mut framer = RecordFramer::new(ByteReader::new(&bytes));
    assert_eq!(framer.next_record(&Minus), Err(Error::CorruptRecord));
    assert!(framer.is_finished());
    assert_eq!(framer.next_record(&Minus), Ok(None));
}

#[test]
fn decompressed_payload_becomes_a_record() {
    assert_eq!(record_from(Some(vec![1, 2])), Ok(Record { data: vec![1, 2] }));
    assert_eq!(record_from(Some(vec![])), Ok(Record { data: vec![] }));
    assert_eq!(record_from(None), Err(Error::CorruptRecord));
}

#[test]
fn stored_payload_is_copied() {
    assert_eq!(Uncompressed.decompress(&[3, 1, 2]), Some(vec![3, 1, 2]));
    assert_eq!(Uncompressed.decompress(&[]), Some(vec![]));
}

#[test]
fn records_start_behind_the_archive_header() {
    let mut bytes = b"AR2V0006.001".to_vec();
    bytes.extend_from_slice(&[0, 0, 0x4a, 0x70, 0, 0, 0, 9]);
    bytes.extend_from_slice(b"KDMX");
    bytes.extend_from_slice(&record_bytes(2, &[0x12, 0x34]));
    let mut reader = ByteReader::new(&bytes);
    let header = decode_archive2_header(&mut reader).unwrap();
    assert_eq!(header.date, 0x4a70);
    let mut framer = RecordFramer::new(reader);
    let record = framer.next_record(&Uncompressed).unwrap().unwrap();
    let mut messages = record.reader();
    assert_eq!(messages.read_u16(), Ok(0x1234));
    assert_eq!(messages.remaining(), 0);
    assert_eq!(framer.next_record(&Uncompressed), Ok(None));
}
