use jaded::attribute::{
    Attribute, CodeData, LineNumber, LineNumberTable, SignatureData, AnnotationDefaultData, AttributeTable, AttributeValue, EnclosingMethodData, ExceptionData,
    InnerClass, InnerClassData, LocalVariable, LocalVariableTable, LocalVariableType,
    LocalVariableTypeTable, MethodParameter, MethodParameterData,
};
use jaded::constant::{Constant, ConstantPool};
use jaded::cursor::{ByteCursor, ReadError};
use jaded::error::AttributeError;

fn pool() -> ConstantPool {
    let mut pool = ConstantPool::new();
    pool.insert(Constant::Utf8 { value: "Synthetic".to_string() }); // 1
    pool.insert(Constant::Utf8 { value: "ConstantValue".to_string() }); // 2
    pool.insert(Constant::Integer { value: 5 }); // 3
    pool.insert(Constant::Utf8 { value: "Future".to_string() }); // 4
    pool
}

fn value(name: &str, data: &[u8]) -> Result<AttributeValue, AttributeError> {
    let pool = pool();
    AttributeValue::from_name_and_data(name, data, Some(&pool))
}

const EOF: AttributeError = AttributeError::IOError(ReadError::UnexpectedEof);

#[test]
fn shapes_without_payload() {
    assert_eq!(value("Deprecated", &[]), Ok(AttributeValue::Deprecated));
    assert_eq!(value("Synthetic", &[1, 2, 3]), Ok(AttributeValue::Synthetic));
}

#[test]
fn single_index_shapes() {
    assert_eq!(value("ConstantValue", &[0x01, 0x02]), Ok(AttributeValue::ConstantValue(0x0102)));
    assert_eq!(value("SourceFile", &[0, 9, 7, 7]), Ok(AttributeValue::SourceFile(9)));
    assert_eq!(value("ConstantValue", &[1]), Err(EOF));
    assert_eq!(value("SourceFile", &[]), Err(EOF));
}

#[test]
fn table_shapes() {
    assert_eq!(
        value("Exceptions", &[0, 2, 0, 5, 1, 0]),
        Ok(AttributeValue::Exceptions(ExceptionData { exceptions: vec![5, 256] }))
    );
    assert_eq!(
        value("InnerClasses", &[0, 1, 0, 1, 0, 2, 0, 3, 0, 8]),
        Ok(AttributeValue::InnerClasses(InnerClassData {
            classes: vec![InnerClass {
                inner_class_info_index: 1,
                outer_class_info_index: 2,
                inner_name_index: 3,
                inner_class_access_flags: 8,
            }]
        }))
    );
    assert_eq!(
        value("LocalVariableTable", &[0, 1, 0, 0, 0, 9, 0, 4, 0, 5, 0, 1]),
        Ok(AttributeValue::LocalVariableTable(LocalVariableTable {
            table: vec![LocalVariable {
                start_pc: 0,
                length: 9,
                name_index: 4,
                descriptor_index: 5,
                index: 1,
            }]
        }))
    );
    assert_eq!(
        value("LocalVariableTypeTable", &[0, 1, 0, 1, 0, 2, 0, 3, 0, 4, 0, 5]),
        Ok(AttributeValue::LocalVariableTypeTable(LocalVariableTypeTable {
            table: vec![LocalVariableType {
                start_pc: 1,
                length: 2,
                name_index: 3,
                signature_index: 4,
                index: 5,
            }]
        }))
    );
    assert_eq!(
        value("MethodParameters", &[2, 0, 1, 0, 0x10, 0, 2, 0, 0]),
        Ok(AttributeValue::MethodParameters(MethodParameterData {
            parameters: vec![
                MethodParameter { name_index: 1, access_flags: 0x10 },
                MethodParameter { name_index: 2, access_flags: 0 },
            ]
        }))
    );
    assert_eq!(
        value("LineNumberTable", &[0, 0]),
        Ok(AttributeValue::LineNumberTable(jaded::attribute::LineNumberTable { table: vec![] }))
    );
}

#[test]
fn short_tables_are_read_failures() {
    assert_eq!(value("Exceptions", &[0, 2, 0, 5]), Err(EOF));
    assert_eq!(value("InnerClasses", &[0, 1, 0, 1, 0, 2, 0, 3, 0]), Err(EOF));
    assert_eq!(value("LineNumberTable", &[0]), Err(EOF));
    assert_eq!(value("MethodParameters", &[1, 0, 1, 0]), Err(EOF));
    assert_eq!(value("MethodParameters", &[]), Err(EOF));
}

#[test]
fn remaining_shapes() {
    assert_eq!(
        value("AnnotationDefault", &[9, 8, 7]),
        Ok(AttributeValue::AnnotationDefault(AnnotationDefaultData { default: vec![9, 8, 7] }))
    );
    assert_eq!(
        value("EnclosingMethod", &[0, 3, 0, 4]),
        Ok(AttributeValue::EnclosingMethod(EnclosingMethodData {
            class_index: 3,
            method_index: 4
        }))
    );
    assert_eq!(value("EnclosingMethod", &[0, 3, 0]), Err(EOF));
}

#[test]
fn signature_needs_a_text_constant() {
    assert_eq!(
        value("Signature", &[0, 4]),
        Ok(AttributeValue::Signature(jaded::attribute::SignatureData {
            signature: "Future".to_string()
        }))
    );
    assert_eq!(value("Signature", &[0, 3]), Err(AttributeError::MissingConstant));
    assert_eq!(value("Signature", &[0, 9]), Err(AttributeError::MissingConstant));
    assert_eq!(value("Signature", &[0]), Err(EOF));
    assert_eq!(
        AttributeValue::from_name_and_data("Signature", &[0, 4], None),
        Err(AttributeError::MissingConstant)
    );
}

#[test]
fn unknown_names_keep_their_bytes() {
    assert_eq!(
        value("StackMapTable", &[1, 2, 3]),
        Ok(AttributeValue::Unknown { name: "StackMapTable".to_string(), data: vec![1, 2, 3] })
    );
    assert_eq!(
        value("code", &[]),
        Ok(AttributeValue::Unknown { name: "code".to_string(), data: vec![] })
    );
}

#[test]
fn code_without_handlers_or_attributes() {
    let payload = [0, 2, 0, 1, 0, 0, 0, 1, 0xb1, 0, 0, 0, 0, 0xEE];
    match value("Code", &payload) {
        Ok(AttributeValue::Code(code)) => {
            assert_eq!(code.max_stack, 2);
            assert_eq!(code.max_locals, 1);
            assert_eq!(code.code, vec![0xb1]);
            assert!(code.exception_table.is_empty());
            assert_eq!(code.attributes.len(), 0);
        }
        other => panic!("expected code, got {:?}", other),
    }
    assert_eq!(value("Code", &payload[..8]), Err(EOF));
    assert_eq!(value("Code", &payload[..12]), Err(EOF));
    assert_eq!(value("Code", &[0, 2, 0, 1, 0xFF, 0xFF, 0xFF, 0xFF, 0xb1]), Err(EOF));
}

fn record(name_index: u16, payload: &[u8]) -> Vec<u8> {
    let mut out = name_index.to_be_bytes().to_vec();
    out.extend((payload.len() as u32).to_be_bytes());
    out.extend(payload);
    out
}

#[test]
fn record_is_bounded_by_its_length() {
    let pool = pool();
    let mut bytes = record(2, &[0, 3, 0xAA, 0xBB]);
    bytes.extend([0x55]);
    let mut cursor = ByteCursor::new(&bytes);
    assert_eq!(
        AttributeValue::read_from(&mut cursor, Some(&pool)),
        Ok(("ConstantValue".to_string(), AttributeValue::ConstantValue(3)))
    );
    assert_eq!(cursor.offset(), 10);
    assert_eq!(cursor.read_u8(), Ok(0x55));
}

#[test]
fn record_name_failures() {
    let pool = pool();
    let mut cursor = ByteCursor::new(&[0, 9, 0, 0, 0, 0]);
    assert_eq!(
        AttributeValue::read_from(&mut cursor, Some(&pool)),
        Err(AttributeError::NoAttribName)
    );
    let mut cursor = ByteCursor::new(&[0, 3, 0, 0, 0, 0]);
    assert_eq!(
        AttributeValue::read_from(&mut cursor, Some(&pool)),
        Err(AttributeError::InvalidNameType)
    );
    let mut cursor = ByteCursor::new(&[0, 1, 0, 0, 0, 0]);
    assert_eq!(AttributeValue::read_from(&mut cursor, None), Err(AttributeError::NoAttribName));
    let mut cursor = ByteCursor::new(&[0, 1, 0, 0, 0, 2, 7]);
    assert_eq!(AttributeValue::read_from(&mut cursor, Some(&pool)), Err(EOF));
    let mut cursor = ByteCursor::new(&[0, 1, 0, 0]);
    assert_eq!(AttributeValue::read_from(&mut cursor, Some(&pool)), Err(EOF));
    let mut cursor = ByteCursor::new(&[0]);
    assert_eq!(AttributeValue::read_from(&mut cursor, Some(&pool)), Err(EOF));
}

#[test]
fn later_record_replaces_earlier_of_the_same_name() {
    let pool = pool();
    let mut bytes = vec![0, 3];
    bytes.extend(record(2, &[0, 1]));
    bytes.extend(record(1, &[]));
    bytes.extend(record(2, &[0, 2]));
    let mut cursor = ByteCursor::new(&bytes);
    let table = AttributeValue::read_all(&mut cursor, Some(&pool)).unwrap();
    assert_eq!(table.len(), 2);
    assert_eq!(table.get("ConstantValue"), Some(&AttributeValue::ConstantValue(2)));
    assert_eq!(table.get("Synthetic"), Some(&AttributeValue::Synthetic));
    assert_eq!(cursor.bytes_left(), 0);
}

#[test]
fn table_insert_and_get() {
    let mut table = AttributeTable::new();
    assert_eq!(table.len(), 0);
    assert_eq!(table.get("a"), None);
    table.insert("a".to_string(), AttributeValue::Deprecated);
    table.insert("b".to_string(), AttributeValue::SourceFile(1));
    table.insert("a".to_string(), AttributeValue::Synthetic);
    assert_eq!(table.len(), 2);
    assert_eq!(table.get("a"), Some(&AttributeValue::Synthetic));
    assert_eq!(table.get("b"), Some(&AttributeValue::SourceFile(1)));
    assert_eq!(table.entries[0].0, "a");
}

#[test]
fn short_table_is_a_read_failure() {
    let pool = pool();
    let mut bytes = vec![0, 2];
    bytes.extend(record(1, &[]));
    let mut cursor = ByteCursor::new(&bytes);
    assert_eq!(AttributeValue::read_all(&mut cursor, Some(&pool)), Err(EOF));
    let mut cursor = ByteCursor::new(&[0]);
    assert_eq!(AttributeValue::read_all(&mut cursor, Some(&pool)), Err(EOF));
}

#[test]
fn shapes_know_their_names_and_decode_from_a_cursor() {
    assert_eq!(<CodeData as Attribute>::name(), "Code");
    assert_eq!(<LineNumberTable as Attribute>::name(), "LineNumberTable");
    assert_eq!(<SignatureData as Attribute>::name(), "Signature");
    assert_eq!(<ExceptionData as Attribute>::name(), "Exceptions");
    assert_eq!(<InnerClassData as Attribute>::name(), "InnerClasses");
    assert_eq!(<LocalVariableTable as Attribute>::name(), "LocalVariableTable");
    assert_eq!(<AnnotationDefaultData as Attribute>::name(), "AnnotationDefault");
    assert_eq!(<EnclosingMethodData as Attribute>::name(), "EnclosingMethod");
    assert_eq!(<LocalVariableTypeTable as Attribute>::name(), "LocalVariableTypeTable");
    assert_eq!(<MethodParameterData as Attribute>::name(), "MethodParameters");

    let pool = pool();
    let bytes = [0, 1, 0, 2, 0, 3, 9];
    let mut cursor = ByteCursor::new(&bytes);
    assert_eq!(
        LineNumberTable::read_data(&mut cursor, Some(&pool)),
        Ok(LineNumberTable { table: vec![LineNumber { start_pc: 2, line_number: 3 }] })
    );
    assert_eq!(cursor.offset(), 6);
    let mut cursor = ByteCursor::new(&[0, 4]);
    assert_eq!(
        SignatureData::read_data(&mut cursor, Some(&pool)),
        Ok(SignatureData { signature: "Future".to_string() })
    );
    let mut cursor = ByteCursor::new(&[0, 0, 0, 0, 0, 0, 0, 0, 0, 0, 0, 0]);
    let code = CodeData::read_data(&mut cursor, Some(&pool)).unwrap();
    assert!(code.code.is_empty());
    assert_eq!(cursor.offset(), 12);
    let mut cursor = ByteCursor::new(&[7, 8]);
    assert_eq!(
        AnnotationDefaultData::read_data(&mut cursor, None),
        Ok(AnnotationDefaultData { default: vec![7, 8] })
    );
}
