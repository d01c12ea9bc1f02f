use jaded::constant::{Constant, ConstantPool, ConstantTag, ReferenceKind};
use jaded::cursor::{ByteCursor, ReadError};
use jaded::error::{ConstantError, ConstantPoolError};
use jaded::method::MethodHandle;

fn decode(bytes: &[u8]) -> Result<Constant, ConstantError> {
    let mut cursor = ByteCursor::new(bytes);
    Constant::read_from(&mut cursor)
}

#[test]
fn insert_advances_by_the_slot_width() {
    let mut pool = ConstantPool::new();
    assert_eq!(pool.size(), 1);
    pool.insert(Constant::Integer { value: 7 });
    assert_eq!(pool.size(), 2);
    pool.insert(Constant::Long { value: -1 });
    assert_eq!(pool.size(), 4);
    pool.insert(Constant::Double { bits: 0x3FF0_0000_0000_0000 });
    assert_eq!(pool.size(), 6);
    pool.insert(Constant::Utf8 { value: "next".to_string() });
    assert_eq!(pool.size(), 7);

    assert_eq!(pool.try_get(1), Ok(&Constant::Integer { value: 7 }));
    assert_eq!(pool.try_get(2), Ok(&Constant::Long { value: -1 }));
    assert_eq!(pool.try_get(4), Ok(&Constant::Double { bits: 0x3FF0_0000_0000_0000 }));
    assert_eq!(pool.try_get(6), Ok(&Constant::Utf8 { value: "next".to_string() }));
    assert_eq!(pool.get(6), &Constant::Utf8 { value: "next".to_string() });
}

#[test]
fn second_slot_of_a_wide_constant_is_out_of_range() {
    let mut pool = ConstantPool::with_capacity(8);
    pool.insert(Constant::Class { name_index: 5 });
    let i = pool.size();
    pool.insert(Constant::Long { value: 42 });
    assert_eq!(pool.size(), i + 2);
    assert_eq!(
        pool.try_get(i + 1),
        Err(ConstantPoolError::InvalidIndex { index: i + 1, length: i + 2 })
    );
    pool.insert(Constant::Integer { value: 1 });
    assert_eq!(pool.try_get(i + 2), Ok(&Constant::Integer { value: 1 }));
    assert_eq!(
        pool.try_get(i + 1),
        Err(ConstantPoolError::InvalidIndex { index: i + 1, length: i + 3 })
    );
}

#[test]
fn slot_zero_and_slots_past_the_end_are_out_of_range() {
    let mut pool = ConstantPool::new();
    assert_eq!(pool.try_get(0), Err(ConstantPoolError::InvalidIndex { index: 0, length: 1 }));
    assert_eq!(pool.try_get(1), Err(ConstantPoolError::InvalidIndex { index: 1, length: 1 }));
    pool.insert(Constant::Integer { value: 3 });
    assert_eq!(pool.try_get(0), Err(ConstantPoolError::InvalidIndex { index: 0, length: 2 }));
    assert_eq!(pool.try_get(2), Err(ConstantPoolError::InvalidIndex { index: 2, length: 2 }));
    assert_eq!(
        pool.try_get(70000),
        Err(ConstantPoolError::InvalidIndex { index: 70000, length: 2 })
    );
}

#[test]
fn class_name_follows_the_indirection() {
    let mut pool = ConstantPool::new();
    pool.insert(Constant::Utf8 { value: "java/lang/Object".to_string() });
    pool.insert(Constant::Class { name_index: 1 });
    pool.insert(Constant::Class { name_index: 2 });
    pool.insert(Constant::Class { name_index: 9 });
    assert_eq!(pool.get_class_name(2), Ok("java/lang/Object".to_string()));
    assert_eq!(
        pool.get_class_name(1),
        Err(ConstantPoolError::UnexpectedType {
            found: ConstantTag::Utf8,
            expected: ConstantTag::Class
        })
    );
    assert_eq!(
        pool.get_class_name(3),
        Err(ConstantPoolError::UnexpectedType {
            found: ConstantTag::Class,
            expected: ConstantTag::Utf8
        })
    );
    assert_eq!(
        pool.get_class_name(4),
        Err(ConstantPoolError::InvalidIndex { index: 9, length: 5 })
    );
    assert_eq!(
        pool.get_class_name(7),
        Err(ConstantPoolError::InvalidIndex { index: 7, length: 5 })
    );
}

#[test]
fn tags_and_their_wire_values() {
    let tags = [
        (1, ConstantTag::Utf8),
        (2, ConstantTag::Data),
        (3, ConstantTag::Integer),
        (4, ConstantTag::Float),
        (5, ConstantTag::Long),
        (6, ConstantTag::Double),
        (7, ConstantTag::Class),
        (8, ConstantTag::String),
        (9, ConstantTag::Fieldref),
        (10, ConstantTag::Methodref),
        (11, ConstantTag::InterfaceMethodref),
        (12, ConstantTag::NameAndType),
        (15, ConstantTag::MethodHandle),
        (16, ConstantTag::MethodType),
        (17, ConstantTag::Dynamic),
        (18, ConstantTag::InvokeDynamic),
        (19, ConstantTag::Module),
        (20, ConstantTag::Package),
    ];
    for (value, tag) in tags {
        assert_eq!(ConstantTag::from_u8(value), Some(tag));
        assert_eq!(tag.to_u8(), value);
        let wide = tag == ConstantTag::Long || tag == ConstantTag::Double;
        assert_eq!(tag.length(), if wide { 2 } else { 1 });
    }
    for value in [0u8, 13, 14, 21, 255] {
        assert_eq!(ConstantTag::from_u8(value), None);
    }
}

#[test]
fn reference_kinds_and_their_wire_values() {
    let kinds = [
        (1, ReferenceKind::GetField, MethodHandle::GetField, "GetField"),
        (2, ReferenceKind::GetStatic, MethodHandle::GetStatic, "GetStatic"),
        (3, ReferenceKind::PutField, MethodHandle::PutField, "PutField"),
        (4, ReferenceKind::PutStatic, MethodHandle::PutStatic, "PutStatic"),
        (5, ReferenceKind::InvokeVirtual, MethodHandle::InvokeVirtual, "InvokeVirtual"),
        (6, ReferenceKind::InvokeStatic, MethodHandle::InvokeStatic, "InvokeStatic"),
        (7, ReferenceKind::InvokeSpecial, MethodHandle::InvokeSpecial, "InvokeSpecial"),
        (8, ReferenceKind::NewInvokeSpecial, MethodHandle::NewInvokeSpecial, "NewInvokeSpecial"),
        (9, ReferenceKind::InvokeInterface, MethodHandle::InvokeInterface, "InvokeInterface"),
    ];
    for (value, kind, handle, name) in kinds {
        assert_eq!(ReferenceKind::from_u8(value), Some(kind));
        assert_eq!(kind.to_u8(), value);
        assert_eq!(MethodHandle::from_u8(value), Some(handle));
        assert_eq!(handle.to_u8(), value);
        assert_eq!(handle.name(), name);
    }
    assert_eq!(ReferenceKind::from_u8(0), None);
    assert_eq!(ReferenceKind::from_u8(10), None);
    assert_eq!(MethodHandle::from_u8(0), None);
    assert_eq!(MethodHandle::from_u8(10), None);
}

#[test]
fn every_kind_of_constant_decodes() {
    assert_eq!(
        decode(&[1, 0, 3, b'a', b'b', b'c']),
        Ok(Constant::Utf8 { value: "abc".to_string() })
    );
    assert_eq!(
        decode(&[1, 0, 2, 0xC3, 0xA9]),
        Ok(Constant::Utf8 { value: "\u{e9}".to_string() })
    );
    assert_eq!(decode(&[1, 0, 0]), Ok(Constant::Utf8 { value: String::new() }));
    assert_eq!(decode(&[2, 0, 2, 0xFF, 0x00]), Ok(Constant::Data { content: vec![0xFF, 0x00] }));
    assert_eq!(decode(&[3, 0, 0, 1, 2]), Ok(Constant::Integer { value: 258 }));
    assert_eq!(decode(&[3, 0xFF, 0xFF, 0xFF, 0xFE]), Ok(Constant::Integer { value: -2 }));
    assert_eq!(decode(&[3, 0x80, 0, 0, 0]), Ok(Constant::Integer { value: i32::MIN }));
    assert_eq!(decode(&[4, 0x3F, 0x80, 0, 0]), Ok(Constant::Float { bits: 0x3F80_0000 }));
    assert_eq!(
        decode(&[5, 0, 0, 0, 1, 0, 0, 0, 2]),
        Ok(Constant::Long { value: 0x1_0000_0002 })
    );
    assert_eq!(
        decode(&[5, 0xFF, 0xFF, 0xFF, 0xFF, 0xFF, 0xFF, 0xFF, 0xFF]),
        Ok(Constant::Long { value: -1 })
    );
    assert_eq!(
        decode(&[6, 0x40, 0x09, 0x21, 0xFB, 0x54, 0x44, 0x2D, 0x18]),
        Ok(Constant::Double { bits: 0x4009_21FB_5444_2D18 })
    );
    assert_eq!(decode(&[7, 0x12, 0x34]), Ok(Constant::Class { name_index: 0x1234 }));
    assert_eq!(decode(&[8, 0, 9]), Ok(Constant::String { string_index: 9 }));
    assert_eq!(
        decode(&[9, 0, 1, 0, 2]),
        Ok(Constant::Fieldref { class_index: 1, name_and_type_info: 2 })
    );
    assert_eq!(
        decode(&[10, 0, 3, 0, 4]),
        Ok(Constant::Methodref { class_index: 3, name_and_type_info: 4 })
    );
    assert_eq!(
        decode(&[11, 0, 5, 0, 6]),
        Ok(Constant::InterfaceMethodref { class_index: 5, name_and_type_info: 6 })
    );
    assert_eq!(
        decode(&[12, 0, 7, 1, 0]),
        Ok(Constant::NameAndType { name_index: 7, descriptor_index: 256 })
    );
    assert_eq!(
        decode(&[15, 6, 0, 8]),
        Ok(Constant::MethodHandle {
            reference_kind: ReferenceKind::InvokeStatic,
            reference_index: 8
        })
    );
    assert_eq!(decode(&[16, 0, 9]), Ok(Constant::MethodType { descriptor_index: 9 }));
    assert_eq!(
        decode(&[17, 0, 1, 0, 2]),
        Ok(Constant::Dynamic { bootstrap_method_attr_index: 1, name_and_type_index: 2 })
    );
    assert_eq!(
        decode(&[18, 0, 3, 0, 4]),
        Ok(Constant::InvokeDynamic { bootstrap_method_attr_index: 3, name_and_type_index: 4 })
    );
    assert_eq!(decode(&[19, 0, 5]), Ok(Constant::Module { name_index: 5 }));
    assert_eq!(decode(&[20, 0, 6]), Ok(Constant::Package { name_index: 6 }));
}

#[test]
fn tag_of_each_constant() {
    assert_eq!(Constant::Utf8 { value: String::new() }.tag(), ConstantTag::Utf8);
    assert_eq!(Constant::Data { content: vec![] }.tag(), ConstantTag::Data);
    assert_eq!(Constant::Integer { value: 0 }.tag(), ConstantTag::Integer);
    assert_eq!(Constant::Float { bits: 0 }.tag(), ConstantTag::Float);
    assert_eq!(Constant::Long { value: 0 }.tag(), ConstantTag::Long);
    assert_eq!(Constant::Double { bits: 0 }.tag(), ConstantTag::Double);
    assert_eq!(Constant::Class { name_index: 0 }.tag(), ConstantTag::Class);
    assert_eq!(Constant::String { string_index: 0 }.tag(), ConstantTag::String);
    assert_eq!(
        Constant::MethodHandle { reference_kind: ReferenceKind::GetField, reference_index: 0 }
            .tag(),
        ConstantTag::MethodHandle
    );
    assert_eq!(Constant::Package { name_index: 0 }.tag(), ConstantTag::Package);
}

#[test]
fn unassigned_tag_is_rejected() {
    assert_eq!(decode(&[13, 0, 0]), Err(ConstantError::UnsupportedTag { tag: 13 }));
    assert_eq!(decode(&[0]), Err(ConstantError::UnsupportedTag { tag: 0 }));
    assert_eq!(decode(&[21, 1, 2, 3]), Err(ConstantError::UnsupportedTag { tag: 21 }));
}

#[test]
fn unassigned_reference_kind_is_rejected() {
    assert_eq!(
        decode(&[15, 0, 0, 1]),
        Err(ConstantError::UnsupportedReferenceKind { value: 0 })
    );
    assert_eq!(
        decode(&[15, 10, 0, 1]),
        Err(ConstantError::UnsupportedReferenceKind { value: 10 })
    );
}

#[test]
fn malformed_text_is_rejected() {
    assert_eq!(decode(&[1, 0, 2, 0xC3, 0x28]), Err(ConstantError::UTF8ParseError));
    assert_eq!(decode(&[1, 0, 1, 0xFF]), Err(ConstantError::UTF8ParseError));
}

#[test]
fn short_constant_is_a_read_failure() {
    let eof = Err(ConstantError::IOError(ReadError::UnexpectedEof));
    assert_eq!(decode(&[]), eof);
    assert_eq!(decode(&[1, 0]), eof);
    assert_eq!(decode(&[1, 0, 4, b'a']), eof);
    assert_eq!(decode(&[3, 0, 0, 1]), eof);
    assert_eq!(decode(&[5, 0, 0, 0, 0, 0, 0, 0]), eof);
    assert_eq!(decode(&[9, 0, 1, 0]), eof);
    assert_eq!(decode(&[15]), eof);
    assert_eq!(decode(&[15, 1, 0]), eof);
}

#[test]
fn decoding_stops_after_the_payload() {
    let bytes = [7, 0, 1, 9, 9];
    let mut cursor = ByteCursor::new(&bytes);
    assert_eq!(Constant::read_from(&mut cursor), Ok(Constant::Class { name_index: 1 }));
    assert_eq!(cursor.offset(), 3);
    assert_eq!(cursor.bytes_left(), 2);
}
