use jaded::cursor::{ByteCursor, ReadError};

#[test]
fn big_endian_reads() {
    let bytes = [
        0x7F, 0x01, 0x02, 0xCA, 0xFE, 0xBA, 0xBE, 0x01, 0x23, 0x45, 0x67, 0x89, 0xAB, 0xCD, 0xEF,
    ];
    let mut cursor = ByteCursor::new(&bytes);
    assert_eq!(cursor.read_u8(), Ok(0x7F));
    assert_eq!(cursor.read_u16(), Ok(0x0102));
    assert_eq!(cursor.read_u32(), Ok(0xCAFEBABE));
    assert_eq!(cursor.read_u64(), Ok(0x0123_4567_89AB_CDEF));
    assert_eq!(cursor.offset(), 15);
    assert_eq!(cursor.bytes_left(), 0);
}

#[test]
fn signed_reads_are_twos_complement() {
    let bytes = [
        0xFF, 0xFF, 0xFF, 0xFE, 0x80, 0x00, 0x00, 0x00, 0x00, 0x00, 0x00, 0x00, 0x7F, 0xFF, 0xFF,
        0xFF,
    ];
    let mut cursor = ByteCursor::new(&bytes);
    assert_eq!(cursor.read_i32(), Ok(-2));
    assert_eq!(cursor.read_i64(), Ok(i64::MIN));
    assert_eq!(cursor.read_i32(), Ok(i32::MAX));
}

#[test]
fn failed_read_moves_to_the_end() {
    let bytes = [1, 2, 3];
    let mut cursor = ByteCursor::new(&bytes);
    assert_eq!(cursor.read_u8(), Ok(1));
    assert_eq!(cursor.read_u32(), Err(ReadError::UnexpectedEof));
    assert_eq!(cursor.offset(), 3);
    assert_eq!(cursor.read_u8(), Err(ReadError::UnexpectedEof));
    assert_eq!(cursor.read_u16(), Err(ReadError::UnexpectedEof));
    assert_eq!(cursor.read_u64(), Err(ReadError::UnexpectedEof));
    assert_eq!(cursor.read_i32(), Err(ReadError::UnexpectedEof));
    assert_eq!(cursor.read_i64(), Err(ReadError::UnexpectedEof));
}

#[test]
fn byte_vectors_are_bounded() {
    let bytes = [10, 20, 30, 40, 50];
    let mut cursor = ByteCursor::new(&bytes);
    assert_eq!(cursor.read_byte_vec(2), Ok(vec![10, 20]));
    assert_eq!(cursor.read_byte_vec(0), Ok(vec![]));
    assert_eq!(cursor.offset(), 2);
    assert_eq!(cursor.read_byte_vec(4), Err(ReadError::UnexpectedEof));
    assert_eq!(cursor.offset(), 5);

    let mut cursor = ByteCursor::new(&bytes);
    assert_eq!(cursor.read_u8(), Ok(10));
    assert_eq!(cursor.read_to_end(), vec![20, 30, 40, 50]);
    assert_eq!(cursor.read_to_end(), Vec::<u8>::new());
    assert_eq!(cursor.read_byte_vec(usize::MAX), Err(ReadError::UnexpectedEof));
}
