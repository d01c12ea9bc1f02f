use jaded::access_flags::AccessFlags;
use jaded::cursor::{ByteCursor, ReadError};
use jaded::error::AccessFlagError;

#[test]
fn flags_are_a_bit_mask() {
    let flags = AccessFlags::from_bits(0x0019).unwrap();
    assert_eq!(flags.bits(), 0x0019);
    assert!(flags.contains(AccessFlags::PUBLIC));
    assert!(flags.contains(AccessFlags::STATIC));
    assert!(flags.contains(AccessFlags::FINAL));
    assert!(flags.contains(AccessFlags::PUBLIC | AccessFlags::FINAL));
    assert!(!flags.contains(AccessFlags::PRIVATE));
    assert!(!flags.contains(AccessFlags::PUBLIC | AccessFlags::PRIVATE));
    assert!(flags.contains(0));
}

#[test]
fn every_bit_is_a_known_flag() {
    let all = [
        AccessFlags::PUBLIC,
        AccessFlags::PRIVATE,
        AccessFlags::PROTECTED,
        AccessFlags::STATIC,
        AccessFlags::FINAL,
        AccessFlags::SUPER,
        AccessFlags::VOLATILE,
        AccessFlags::TRANSIENT,
        AccessFlags::NATIVE,
        AccessFlags::INTERFACE,
        AccessFlags::ABSTRACT,
        AccessFlags::STRICT,
        AccessFlags::SYNTHETIC,
        AccessFlags::ANNOTATION,
        AccessFlags::ENUM,
        AccessFlags::MODULE,
    ];
    let mut mask = 0u16;
    for (i, flag) in all.iter().enumerate() {
        assert_eq!(*flag, 1u16 << i);
        mask |= flag;
    }
    assert_eq!(mask, AccessFlags::ALL);
    assert_eq!(AccessFlags::from_bits(0xFFFF).map(|f| f.bits()), Some(0xFFFF));
    assert_eq!(AccessFlags::from_bits(0).map(|f| f.bits()), Some(0));
}

#[test]
fn flags_are_read_big_endian() {
    let mut cursor = ByteCursor::new(&[0x04, 0x21, 0xFF]);
    let flags = AccessFlags::read_from(&mut cursor).unwrap();
    assert_eq!(flags.bits(), 0x0421);
    assert!(flags.contains(AccessFlags::ABSTRACT));
    assert!(flags.contains(AccessFlags::SUPER));
    assert!(flags.contains(AccessFlags::PUBLIC));
    assert_eq!(cursor.offset(), 2);
    assert_eq!(
        AccessFlags::read_from(&mut cursor),
        Err(AccessFlagError::IOError(ReadError::UnexpectedEof))
    );
}
