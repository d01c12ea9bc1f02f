use jaded::access_flags::AccessFlags;
use jaded::attribute::{
    AsData, AttributeValue, CodeData, ExceptionTableEntry, LineNumber, LineNumberTable,
    SignatureData,
};
use jaded::class::{name_from_class_index, Class, SourceLanguage, CLASS_SIGNATURE};
use jaded::class_path::ClassPath;
use jaded::constant::{Constant, ConstantPool, ConstantTag};
use jaded::cursor::{ByteCursor, ReadError};
use jaded::error::{
    AttributeError, ClassReadError, ConstantError, ConstantPoolError, JVMTypeError, MemberError,
};
use jaded::member::Member;
use jaded::ty::{JVMPrimitive, JVMType, EXPECTED_TYPE};

fn u16_bytes(v: u16) -> Vec<u8> {
    v.to_be_bytes().to_vec()
}

fn u32_bytes(v: u32) -> Vec<u8> {
    v.to_be_bytes().to_vec()
}

fn utf8(text: &str) -> Vec<u8> {
    let mut out = vec![1];
    out.extend(u16_bytes(text.len() as u16));
    out.extend(text.as_bytes());
    out
}

fn class_constant(name_index: u16) -> Vec<u8> {
    let mut out = vec![7];
    out.extend(u16_bytes(name_index));
    out
}

fn attribute(name_index: u16, payload: &[u8]) -> Vec<u8> {
    let mut out = u16_bytes(name_index);
    out.extend(u32_bytes(payload.len() as u32));
    out.extend(payload);
    out
}

// Constant pool of the sample class:
//  1 Utf8 "com/example/Hello"      2 Class -> 1
//  3 Utf8 "java/lang/Object"       4 Class -> 3
//  5 Utf8 "java/lang/Runnable"     6 Class -> 5
//  7 Utf8 "count"                  8 Utf8 "I"
//  9 Utf8 "<init>"                10 Utf8 "()V"
// 11 Utf8 "Code"                  12 Utf8 "LineNumberTable"
// 13 Utf8 "SourceFile"            14 Utf8 "Hello.java"
// 15 Long 7 (two slots)           17 Utf8 "Custom"
// 18 Utf8 "Signature"             19 Utf8 "TT;"
fn sample_pool() -> Vec<u8> {
    let mut out = u16_bytes(20);
    out.extend(utf8("com/example/Hello"));
    out.extend(class_constant(1));
    out.extend(utf8("java/lang/Object"));
    out.extend(class_constant(3));
    out.extend(utf8("java/lang/Runnable"));
    out.extend(class_constant(5));
    out.extend(utf8("count"));
    out.extend(utf8("I"));
    out.extend(utf8("<init>"));
    out.extend(utf8("()V"));
    out.extend(utf8("Code"));
    out.extend(utf8("LineNumberTable"));
    out.extend(utf8("SourceFile"));
    out.extend(utf8("Hello.java"));
    out.extend([5, 0, 0, 0, 0, 0, 0, 0, 7]);
    out.extend(utf8("Custom"));
    out.extend(utf8("Signature"));
    out.extend(utf8("TT;"));
    out
}

fn code_payload() -> Vec<u8> {
    let mut code = Vec::new();
    code.extend(u16_bytes(1)); // max stack
    code.extend(u16_bytes(2)); // max locals
    code.extend(u32_bytes(5));
    code.extend([0x2a, 0xb7, 0x00, 0x01, 0xb1]);
    code.extend(u16_bytes(1)); // one handler
    code.extend([0, 0, 0, 4, 0, 4, 0, 0]);
    code.extend(u16_bytes(1)); // one nested attribute
    let mut lines = u16_bytes(2);
    lines.extend([0, 0, 0, 3, 0, 4, 0, 5]);
    code.extend(attribute(12, &lines));
    code
}

fn header(magic: u32) -> Vec<u8> {
    let mut out = u32_bytes(magic);
    out.extend(u16_bytes(3)); // minor
    out.extend(u16_bytes(52)); // major
    out
}

fn sample_class() -> Vec<u8> {
    let mut out = header(CLASS_SIGNATURE);
    out.extend(sample_pool());
    out.extend(u16_bytes(0x0021)); // public super
    out.extend(u16_bytes(2)); // this
    out.extend(u16_bytes(4)); // super
    out.extend(u16_bytes(1)); // interfaces
    out.extend(u16_bytes(6));
    out.extend(u16_bytes(1)); // fields
    out.extend(u16_bytes(0x0002));
    out.extend(u16_bytes(7));
    out.extend(u16_bytes(8));
    out.extend(u16_bytes(0));
    out.extend(u16_bytes(1)); // methods
    out.extend(u16_bytes(0x0001));
    out.extend(u16_bytes(9));
    out.extend(u16_bytes(10));
    out.extend(u16_bytes(1));
    out.extend(attribute(11, &code_payload()));
    out.extend(u16_bytes(3)); // class attributes
    out.extend(attribute(13, &u16_bytes(14)));
    out.extend(attribute(17, &[0xDE, 0xAD]));
    out.extend(attribute(18, &u16_bytes(19)));
    out
}

#[test]
fn sample_class_decodes() {
    let class = Class::read(&sample_class()).unwrap();
    assert_eq!(class.compiler_info.major, 52);
    assert_eq!(class.compiler_info.minor, 3);
    assert_eq!(class.compiler_info.language, SourceLanguage::Java);
    assert_eq!(class.access_flags.bits(), 0x0021);
    assert!(class.access_flags.contains(AccessFlags::PUBLIC));
    assert_eq!(class.class_name.full_path(), "com.example.Hello");
    assert_eq!(class.super_name, Some(ClassPath::default()));
    assert_eq!(class.interfaces, vec![ClassPath::java_lang_class("Runnable")]);

    assert_eq!(class.constant_pool.size(), 20);
    assert_eq!(class.constant_pool.try_get(15), Ok(&Constant::Long { value: 7 }));
    assert_eq!(
        class.constant_pool.try_get(16),
        Err(ConstantPoolError::InvalidIndex { index: 16, length: 20 })
    );
    assert_eq!(
        class.constant_pool.try_get(17),
        Ok(&Constant::Utf8 { value: "Custom".to_string() })
    );

    assert_eq!(class.fields.len(), 1);
    let field = &class.fields[0];
    assert_eq!(field.name, "count");
    assert_eq!(field.access_flags.bits(), 0x0002);
    assert_eq!(field.descriptor.value, JVMType::TPrimitive(JVMPrimitive::TInt));
    assert!(field.descriptor.arguments.is_empty());
    assert_eq!(field.attributes.len(), 0);
    assert!(!field.is_constructor());

    assert_eq!(class.methods.len(), 1);
    let method = &class.methods[0];
    assert_eq!(method.name, "<init>");
    assert!(method.is_constructor());
    assert_eq!(method.descriptor.value, JVMType::TPrimitive(JVMPrimitive::TVoid));
    assert_eq!(method.attributes.len(), 1);
    let code: &CodeData = method.attributes.get("Code").unwrap().as_data().unwrap();
    assert_eq!(code.max_stack, 1);
    assert_eq!(code.max_locals, 2);
    assert_eq!(code.code, vec![0x2a, 0xb7, 0x00, 0x01, 0xb1]);
    assert_eq!(
        code.exception_table,
        vec![ExceptionTableEntry { start_pc: 0, end_pc: 4, handler_pc: 4, catch_type: 0 }]
    );
    let lines: &LineNumberTable =
        code.attributes.get("LineNumberTable").unwrap().as_data().unwrap();
    assert_eq!(
        lines.table,
        vec![
            LineNumber { start_pc: 0, line_number: 3 },
            LineNumber { start_pc: 4, line_number: 5 }
        ]
    );

    assert_eq!(class.attributes.len(), 3);
    assert_eq!(class.attributes.get("SourceFile"), Some(&AttributeValue::SourceFile(14)));
    assert_eq!(
        class.attributes.get("Custom"),
        Some(&AttributeValue::Unknown { name: "Custom".to_string(), data: vec![0xDE, 0xAD] })
    );
    let signature: &SignatureData = class.attributes.get("Signature").unwrap().as_data().unwrap();
    assert_eq!(signature.signature, "TT;");
    assert_eq!(class.attributes.get("Missing"), None);
    let wrong: Result<&CodeData, AttributeError> =
        class.attributes.get("SourceFile").unwrap().as_data();
    assert_eq!(wrong, Err(AttributeError::InvalidData));
}

#[test]
fn decoding_twice_gives_equal_models() {
    let bytes = sample_class();
    let first = Class::read(&bytes).unwrap();
    let second = Class::read(&bytes).unwrap();
    assert_eq!(first, second);
    assert_eq!(first.access_flags, second.access_flags);
    assert_eq!(first.class_name, second.class_name);
    assert_eq!(first.constant_pool, second.constant_pool);
    assert_eq!(first.attributes, second.attributes);
}

#[test]
fn cursor_ends_after_the_class() {
    let mut bytes = sample_class();
    let length = bytes.len();
    bytes.extend([1, 2, 3]);
    let mut cursor = ByteCursor::new(&bytes);
    assert!(Class::read_from(&mut cursor).is_ok());
    assert_eq!(cursor.offset(), length);
}

#[test]
fn wrong_magic_is_reported() {
    let mut bytes = sample_class();
    bytes[0..4].copy_from_slice(&[0x12, 0x34, 0x56, 0x78]);
    assert_eq!(Class::read(&bytes), Err(ClassReadError::InvalidMagic { found: 0x12345678 }));
}

#[test]
fn short_constant_pool_is_incomplete_data() {
    let mut bytes = header(CLASS_SIGNATURE);
    bytes.extend(u16_bytes(5));
    bytes.extend(utf8("a"));
    bytes.extend(utf8("b"));
    bytes.extend(utf8("c"));
    assert_eq!(
        Class::read(&bytes),
        Err(ClassReadError::Constant(ConstantError::IOError(ReadError::UnexpectedEof)))
    );
}

#[test]
fn truncated_class_is_a_read_failure() {
    let bytes = sample_class();
    assert_eq!(Class::read(&[]), Err(ClassReadError::IOError(ReadError::UnexpectedEof)));
    assert_eq!(Class::read(&bytes[..6]), Err(ClassReadError::IOError(ReadError::UnexpectedEof)));
    for cut in 0..bytes.len() {
        assert!(Class::read(&bytes[..cut]).is_err(), "cut at {}", cut);
    }
}

#[test]
fn wide_constant_may_end_one_past_the_count() {
    let mut bytes = header(CLASS_SIGNATURE);
    bytes.extend(u16_bytes(4));
    bytes.extend(utf8("A"));
    bytes.extend(class_constant(1));
    bytes.extend([6, 0, 0, 0, 0, 0, 0, 0, 1]);
    bytes.extend(u16_bytes(0));
    bytes.extend(u16_bytes(2));
    bytes.extend(u16_bytes(0));
    bytes.extend(u16_bytes(0));
    bytes.extend(u16_bytes(0));
    bytes.extend(u16_bytes(0));
    bytes.extend(u16_bytes(0));
    let class = Class::read(&bytes).unwrap();
    assert_eq!(class.constant_pool.size(), 5);
    assert_eq!(class.super_name, None);
    assert_eq!(class.class_name.name, "A");
    assert!(class.interfaces.is_empty());
}

fn small_class(pool: &[Vec<u8>], this: u16, superclass: u16, interfaces: &[u16]) -> Vec<u8> {
    let mut bytes = header(CLASS_SIGNATURE);
    bytes.extend(u16_bytes(pool.len() as u16 + 1));
    for constant in pool {
        bytes.extend(constant);
    }
    bytes.extend(u16_bytes(1));
    bytes.extend(u16_bytes(this));
    bytes.extend(u16_bytes(superclass));
    bytes.extend(u16_bytes(interfaces.len() as u16));
    for interface in interfaces {
        bytes.extend(u16_bytes(*interface));
    }
    bytes.extend(u16_bytes(0));
    bytes.extend(u16_bytes(0));
    bytes.extend(u16_bytes(0));
    bytes
}

#[test]
fn superclass_is_resolved_from_its_own_index() {
    let pool = vec![utf8("a/This"), class_constant(1), utf8("b/Super"), class_constant(3)];
    let class = Class::read(&small_class(&pool, 2, 4, &[])).unwrap();
    assert_eq!(class.class_name.full_path(), "a.This");
    assert_eq!(class.super_name.unwrap().full_path(), "b.Super");
}

#[test]
fn malformed_class_references_are_rejected() {
    let pool = vec![utf8("a/This"), class_constant(1), class_constant(2), class_constant(9)];
    assert_eq!(
        Class::read(&small_class(&pool, 1, 0, &[])),
        Err(ClassReadError::InvalidClassReference)
    );
    assert_eq!(
        Class::read(&small_class(&pool, 0, 0, &[])),
        Err(ClassReadError::InvalidClassReference)
    );
    assert_eq!(
        Class::read(&small_class(&pool, 3, 0, &[])),
        Err(ClassReadError::InvalidClassReference)
    );
    assert_eq!(
        Class::read(&small_class(&pool, 4, 0, &[])),
        Err(ClassReadError::InvalidClassReference)
    );
    assert_eq!(
        Class::read(&small_class(&pool, 2, 1, &[])),
        Err(ClassReadError::InvalidClassReference)
    );
    assert_eq!(
        Class::read(&small_class(&pool, 2, 77, &[])),
        Err(ClassReadError::InvalidClassReference)
    );
    assert_eq!(
        Class::read(&small_class(&pool, 2, 0, &[2, 1])),
        Err(ClassReadError::InvalidInterfaceReference)
    );
    assert_eq!(
        Class::read(&small_class(&pool, 2, 0, &[0])),
        Err(ClassReadError::InvalidInterfaceReference)
    );
}

#[test]
fn malformed_class_name_is_rejected() {
    let pool = vec![utf8("a//This"), class_constant(1)];
    assert!(matches!(
        Class::read(&small_class(&pool, 2, 0, &[])),
        Err(ClassReadError::ClassPath(_))
    ));
}

#[test]
fn unassigned_tag_in_the_pool_is_rejected() {
    let pool = vec![utf8("a/This"), vec![13, 0, 0]];
    assert_eq!(
        Class::read(&small_class(&pool, 2, 0, &[])),
        Err(ClassReadError::Constant(ConstantError::UnsupportedTag { tag: 13 }))
    );
}

#[test]
fn class_index_resolution() {
    let mut pool = ConstantPool::new();
    pool.insert(Constant::Utf8 { value: "java/util/Map$Entry".to_string() });
    pool.insert(Constant::Class { name_index: 1 });
    let path = name_from_class_index(2, &pool).unwrap();
    assert_eq!(path.full_path(), "java.util.Map.Entry");
    assert_eq!(path.jar_path(), "java/util/Map$Entry.class");
    assert_eq!(name_from_class_index(1, &pool), Err(ClassReadError::InvalidClassReference));
    assert_eq!(name_from_class_index(3, &pool), Err(ClassReadError::InvalidClassReference));
}

fn member_pool() -> ConstantPool {
    let mut pool = ConstantPool::new();
    pool.insert(Constant::Utf8 { value: "run".to_string() }); // 1
    pool.insert(Constant::Utf8 { value: "(I)V".to_string() }); // 2
    pool.insert(Constant::Integer { value: 1 }); // 3
    pool.insert(Constant::Utf8 { value: "(Q)V".to_string() }); // 4
    pool.insert(Constant::Utf8 { value: "Deprecated".to_string() }); // 5
    pool
}

fn member(flags: u16, name: u16, descriptor: u16, attributes: &[Vec<u8>]) -> Vec<u8> {
    let mut bytes = u16_bytes(flags);
    bytes.extend(u16_bytes(name));
    bytes.extend(u16_bytes(descriptor));
    bytes.extend(u16_bytes(attributes.len() as u16));
    for a in attributes {
        bytes.extend(a);
    }
    bytes
}

fn read_member(bytes: &[u8]) -> Result<Member, MemberError> {
    let pool = member_pool();
    let mut cursor = ByteCursor::new(bytes);
    Member::read_from(&mut cursor, &pool)
}

#[test]
fn member_decodes() {
    let decoded = read_member(&member(0x0009, 1, 2, &[attribute(5, &[])])).unwrap();
    assert_eq!(decoded.name, "run");
    assert!(decoded.access_flags.contains(AccessFlags::STATIC));
    assert_eq!(decoded.descriptor.arguments, vec![JVMType::TPrimitive(JVMPrimitive::TInt)]);
    assert_eq!(decoded.attributes.get("Deprecated"), Some(&AttributeValue::Deprecated));
}

#[test]
fn member_failures() {
    assert_eq!(
        read_member(&member(1, 9, 2, &[])),
        Err(MemberError::ConstantPool(ConstantPoolError::InvalidIndex { index: 9, length: 6 }))
    );
    assert_eq!(read_member(&member(1, 3, 2, &[])), Err(MemberError::InvalidNameType));
    assert_eq!(read_member(&member(1, 1, 9, &[])), Err(MemberError::NoMemberDesc));
    assert_eq!(
        read_member(&member(1, 1, 3, &[])),
        Err(MemberError::ConstantPool(ConstantPoolError::UnexpectedType {
            found: ConstantTag::Integer,
            expected: ConstantTag::Utf8
        }))
    );
    assert_eq!(
        read_member(&member(1, 1, 4, &[])),
        Err(MemberError::JVMTypeError(JVMTypeError::InvalidType {
            found: 'Q',
            expected: EXPECTED_TYPE
        }))
    );
    assert_eq!(
        read_member(&member(1, 1, 2, &[attribute(3, &[])])),
        Err(MemberError::AttributeReadError(AttributeError::InvalidNameType))
    );
    assert_eq!(read_member(&[0, 1, 0]), Err(MemberError::IOError(ReadError::UnexpectedEof)));
    assert_eq!(
        read_member(&[0]),
        Err(MemberError::AccessFlagError(jaded::error::AccessFlagError::IOError(
            ReadError::UnexpectedEof
        )))
    );
}

#[test]
fn failures_of_the_parts_are_passed_on() {
    let pool = vec![utf8("a/This"), class_constant(1)];
    let good = small_class(&pool, 2, 0, &[]);
    let flags_at = good.len() - 14;

    // The access flags are cut short.
    assert_eq!(
        Class::read(&good[..flags_at + 1]),
        Err(ClassReadError::AccessFlag(jaded::error::AccessFlagError::IOError(
            ReadError::UnexpectedEof
        )))
    );

    // One field whose name index points nowhere.
    let mut with_field = good[..good.len() - 6].to_vec();
    with_field.extend(u16_bytes(1));
    with_field.extend(member(1, 9, 1, &[]));
    with_field.extend(u16_bytes(0));
    with_field.extend(u16_bytes(0));
    assert_eq!(
        Class::read(&with_field),
        Err(ClassReadError::Member(MemberError::ConstantPool(ConstantPoolError::InvalidIndex {
            index: 9,
            length: 3
        })))
    );

    // One class attribute whose name is a class constant.
    let mut with_attribute = good[..good.len() - 2].to_vec();
    with_attribute.extend(u16_bytes(1));
    with_attribute.extend(attribute(2, &[]));
    assert_eq!(
        Class::read(&with_attribute),
        Err(ClassReadError::Attribute(AttributeError::InvalidNameType))
    );
}
