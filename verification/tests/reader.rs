use nexrad::bytes::ByteReader;
use nexrad::real4::Real4;
use nexrad::Error;

#[test]
fn new_reader_starts_at_zero() {
    let data = [1u8, 2, 3];
    let reader = ByteReader::new(&data);
    assert_eq!(reader.position(), 0);
    assert_eq!(reader.len(), 3);
    assert_eq!(reader.remaining(), 3);
}

#[test]
fn numbers_are_read_big_endian() {
    let data = [0x12u8, 0x34, 0xde, 0xad, 0xbe, 0xef, 0x7f];
    let mut reader = ByteReader::new(&data);
    assert_eq!(reader.read_u16(), Ok(0x1234));
    assert_eq!(reader.position(), 2);
    assert_eq!(reader.read_u32(), Ok(0xdead_beef));
    assert_eq!(reader.position(), 6);
    assert_eq!(reader.read_u8(), Ok(0x7f));
    assert_eq!(reader.remaining(), 0);
}

#[test]
fn signed_numbers_are_twos_complement() {
    let data = [0xff_u8, 0xfe, 0x80, 0x00, 0x7f, 0xff, 0xff, 0xff, 0xff, 0xfd, 0x80, 0, 0, 0];
    let mut reader = ByteReader::new(&data);
    assert_eq!(reader.read_i16(), Ok(-2));
    assert_eq!(reader.read_i16(), Ok(i16::MIN));
    assert_eq!(reader.read_i16(), Ok(i16::MAX));
    assert_eq!(reader.read_i32(), Ok(-3));
    assert_eq!(reader.read_i32(), Ok(i32::MIN));
}

#[test]
fn real_numbers_keep_their_bits() {
    let data = 2.5f32.to_be_bytes();
    let mut reader = ByteReader::new(&data);
    let value = reader.read_real4().unwrap();
    assert_eq!(value, Real4 { bits: 0x4020_0000 });
    assert_eq!(f32::from_bits(value.to_bits()), 2.5);
}

#[test]
fn short_read_fails_and_leaves_the_position() {
    let data = [1u8, 2, 3];
    let mut reader = ByteReader::new(&data);
    assert_eq!(reader.read_u8(), Ok(1));
    assert_eq!(reader.read_u32(), Err(Error::UnexpectedEof));
    assert_eq!(reader.position(), 1);
    assert_eq!(reader.read_i32(), Err(Error::UnexpectedEof));
    assert_eq!(reader.read_real4(), Err(Error::UnexpectedEof));
    assert_eq!(reader.read_u16(), Ok(0x0203));
    assert_eq!(reader.read_u16(), Err(Error::UnexpectedEof));
    assert_eq!(reader.read_i16(), Err(Error::UnexpectedEof));
    assert_eq!(reader.read_u8(), Err(Error::UnexpectedEof));
    assert_eq!(reader.position(), 3);
}

#[test]
fn seek_reaches_the_end_but_not_beyond() {
    let data = [0u8; 4];
    let mut reader = ByteReader::new(&data);
    assert_eq!(reader.seek(4), Ok(()));
    assert_eq!(reader.position(), 4);
    assert_eq!(reader.seek(5), Err(Error::UnexpectedEof));
    assert_eq!(reader.position(), 4);
    assert_eq!(reader.seek(1), Ok(()));
    assert_eq!(reader.position(), 1);
}

#[test]
fn skip_moves_forward_within_the_buffer() {
    let data = [0u8; 4];
    let mut reader = ByteReader::new(&data);
    assert_eq!(reader.skip(3), Ok(()));
    assert_eq!(reader.position(), 3);
    assert_eq!(reader.skip(2), Err(Error::UnexpectedEof));
    assert_eq!(reader.position(), 3);
    assert_eq!(reader.skip(usize::MAX), Err(Error::UnexpectedEof));
    assert_eq!(reader.skip(1), Ok(()));
    assert_eq!(reader.skip(0), Ok(()));
    assert_eq!(reader.position(), 4);
}

#[test]
fn read_bytes_copies_a_range() {
    let data = [9u8, 8, 7, 6, 5];
    let mut reader = ByteReader::new(&data);
    assert_eq!(reader.read_u8(), Ok(9));
    assert_eq!(reader.read_bytes(3), Ok(vec![8, 7, 6]));
    assert_eq!(reader.position(), 4);
    assert_eq!(reader.read_bytes(2), Err(Error::UnexpectedEof));
    assert_eq!(reader.position(), 4);
    assert_eq!(reader.read_bytes(0), Ok(vec![]));
    assert_eq!(reader.read_bytes(1), Ok(vec![5]));
}

#[test]
fn zero_is_told_apart_by_bits() {
    assert!(Real4::from_bits(0).equals_zero());
    assert!(Real4::from_bits((-0.0f32).to_bits()).equals_zero());
    assert!(!Real4::from_bits(1).equals_zero());
    assert!(!Real4::from_bits(2.0f32.to_bits()).equals_zero());
    assert!(!Real4::from_bits(f32::NAN.to_bits()).equals_zero());
}
