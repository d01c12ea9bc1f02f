use jaded::class_path::{ClassPath, STARTS_WITH_DIGIT};
use jaded::cursor::{ByteCursor, ReadError};
use jaded::error::{ClassPathError, JVMTypeError};
use jaded::ty::{
    Descriptor, JVMPrimitive, JVMType, EXPECTED_PRIMITIVE, EXPECTED_TERMINATOR, EXPECTED_TYPE,
};

#[test]
fn descriptor_parsing_works() {
    let descriptors = &["(ILjava/lang/String;[I)J"];
    for d in descriptors {
        let descriptor = Descriptor::parse(d).unwrap();
        assert_eq!(descriptor.value, JVMType::TPrimitive(JVMPrimitive::TLong));
        assert_eq!(
            descriptor.arguments,
            vec![
                JVMType::TPrimitive(JVMPrimitive::TInt),
                JVMType::TClass(ClassPath::java_lang_class("String")),
                JVMType::TPrimitiveArray { depth: 1, inner: JVMPrimitive::TInt },
            ]
        );
        assert_eq!(descriptor.arguments[1].class().unwrap().full_path(), "java.lang.String");
    }
}

#[test]
fn field_descriptor_has_no_arguments() {
    let descriptor = Descriptor::parse("Ljava/util/List;").unwrap();
    assert!(descriptor.arguments.is_empty());
    assert_eq!(descriptor.value, JVMType::TClass(ClassPath::parse("java/util/List").unwrap()));
    assert_eq!(Descriptor::from_string("Z".to_string()).unwrap().value, JVMType::TPrimitive(JVMPrimitive::TBoolean));
}

#[test]
fn method_without_arguments() {
    let descriptor = Descriptor::parse("()V").unwrap();
    assert!(descriptor.arguments.is_empty());
    assert_eq!(descriptor.value, JVMType::TPrimitive(JVMPrimitive::TVoid));
}

#[test]
fn every_primitive_code() {
    let codes = [
        ("B", JVMPrimitive::TByte),
        ("C", JVMPrimitive::TChar),
        ("D", JVMPrimitive::TDouble),
        ("F", JVMPrimitive::TFloat),
        ("I", JVMPrimitive::TInt),
        ("J", JVMPrimitive::TLong),
        ("S", JVMPrimitive::TShort),
        ("Z", JVMPrimitive::TBoolean),
        ("V", JVMPrimitive::TVoid),
    ];
    for (text, primitive) in codes {
        assert_eq!(JVMType::parse(text), Ok(JVMType::TPrimitive(primitive)));
        assert_eq!(JVMPrimitive::from_char(text.chars().next().unwrap()), Ok(primitive));
    }
}

#[test]
fn arrays_count_their_brackets() {
    assert_eq!(
        JVMType::parse("[[[D"),
        Ok(JVMType::TPrimitiveArray { depth: 3, inner: JVMPrimitive::TDouble })
    );
    assert_eq!(
        JVMType::parse("[[Ljava/lang/Object;"),
        Ok(JVMType::TClassArray { depth: 2, inner: ClassPath::default() })
    );
}

#[test]
fn nested_class_reference() {
    let parsed = JVMType::parse("Lcom/example/Of$Nested$Class;").unwrap();
    match parsed {
        JVMType::TClass(path) => {
            assert_eq!(path.package, vec!["com".to_string(), "example".to_string()]);
            assert_eq!(path.outer_classes, vec!["Of".to_string(), "Nested".to_string()]);
            assert_eq!(path.name, "Class");
        }
        other => panic!("expected a class, got {:?}", other),
    }
}

#[test]
fn unknown_type_code_is_invalid() {
    assert_eq!(
        JVMType::parse("X"),
        Err(JVMTypeError::InvalidType { found: 'X', expected: EXPECTED_TYPE })
    );
}

#[test]
fn unterminated_class_reference_is_invalid() {
    assert_eq!(
        JVMType::parse("Ljava/lang/String"),
        Err(JVMTypeError::InvalidType { found: 'L', expected: EXPECTED_TERMINATOR })
    );
    assert_eq!(
        JVMType::from_string("[Ljava/lang/String".to_string()),
        Err(JVMTypeError::InvalidType { found: 'L', expected: EXPECTED_TERMINATOR })
    );
    assert_eq!(
        JVMType::parse("[[Ljava/lang/Object"),
        Err(JVMTypeError::InvalidType { found: 'L', expected: EXPECTED_TERMINATOR })
    );
    assert_eq!(
        Descriptor::parse("([Ljava/lang/String)V"),
        Err(JVMTypeError::InvalidType { found: 'L', expected: EXPECTED_TERMINATOR })
    );
    let descriptor = Descriptor::parse("([Ljava/lang/String;)V").unwrap();
    assert_eq!(
        descriptor.arguments,
        vec![JVMType::TClassArray { depth: 1, inner: ClassPath::java_lang_class("String") }]
    );
    assert_eq!(descriptor.value, JVMType::TPrimitive(JVMPrimitive::TVoid));
    let mut cursor = ByteCursor::new(b"[La/B$C;I");
    assert_eq!(
        JVMType::read_from(&mut cursor),
        Ok(JVMType::TClassArray { depth: 1, inner: ClassPath::parse("a/B$C").unwrap() })
    );
    assert_eq!(cursor.offset(), 8);
    let mut cursor = ByteCursor::new(b"a/B;rest");
    assert_eq!(JVMType::read_reference(&mut cursor), Ok(ClassPath::parse("a/B").unwrap()));
    assert_eq!(cursor.offset(), 4);
    assert_eq!(
        Descriptor::parse("(Ljava/lang/String"),
        Err(JVMTypeError::InvalidType { found: 'L', expected: EXPECTED_TERMINATOR })
    );
}

#[test]
fn array_of_unknown_element_is_invalid() {
    assert_eq!(
        JVMType::parse("[X"),
        Err(JVMTypeError::InvalidType { found: 'X', expected: EXPECTED_PRIMITIVE })
    );
    assert_eq!(
        JVMPrimitive::from_char('L'),
        Err(JVMTypeError::InvalidType { found: 'L', expected: EXPECTED_PRIMITIVE })
    );
}

#[test]
fn malformed_class_path_is_reported() {
    assert_eq!(
        JVMType::parse("Ljava/1ang/String;"),
        Err(JVMTypeError::ClassPath(ClassPathError::InvalidIdentifier {
            identifier: "1ang".to_string(),
            reason: STARTS_WITH_DIGIT,
        }))
    );
}

#[test]
fn missing_input_is_a_read_failure() {
    assert_eq!(JVMType::parse(""), Err(JVMTypeError::IOError(ReadError::UnexpectedEof)));
    assert_eq!(JVMType::parse("["), Err(JVMTypeError::IOError(ReadError::UnexpectedEof)));
    assert_eq!(Descriptor::parse(""), Err(JVMTypeError::IOError(ReadError::UnexpectedEof)));
    assert_eq!(Descriptor::parse("(I"), Err(JVMTypeError::IOError(ReadError::UnexpectedEof)));
    assert_eq!(Descriptor::parse("(I)"), Err(JVMTypeError::IOError(ReadError::UnexpectedEof)));
}

#[test]
fn prefix_replaces_the_first_byte() {
    let bytes = b"I";
    let mut cursor = ByteCursor::new(bytes);
    assert_eq!(
        JVMType::read_from_with_prefix(&mut cursor, Some('[')),
        Ok(JVMType::TPrimitiveArray { depth: 1, inner: JVMPrimitive::TInt })
    );
    assert_eq!(cursor.offset(), 1);

    let mut cursor = ByteCursor::new(bytes);
    assert_eq!(
        JVMType::read_from_with_prefix(&mut cursor, Some('J')),
        Ok(JVMType::TPrimitive(JVMPrimitive::TLong))
    );
    assert_eq!(cursor.offset(), 0);

    let mut cursor = ByteCursor::new(bytes);
    assert_eq!(JVMType::read_from(&mut cursor), Ok(JVMType::TPrimitive(JVMPrimitive::TInt)));
    assert_eq!(cursor.offset(), 1);
}

#[test]
fn descriptor_stops_after_the_return_type() {
    let bytes = b"(I)Jrest";
    let mut cursor = ByteCursor::new(bytes);
    let descriptor = Descriptor::read_from(&mut cursor).unwrap();
    assert_eq!(descriptor.arguments.len(), 1);
    assert_eq!(cursor.offset(), 4);
}

#[test]
fn accessors_of_types() {
    let primitive = JVMType::TPrimitive(JVMPrimitive::TInt);
    let class = JVMType::TClass(ClassPath::default());
    let primitive_array = JVMType::TPrimitiveArray { depth: 2, inner: JVMPrimitive::TChar };
    let class_array = JVMType::TClassArray { depth: 3, inner: ClassPath::default() };

    assert_eq!(primitive.array_depth(), 0);
    assert_eq!(class.array_depth(), 0);
    assert_eq!(primitive_array.array_depth(), 2);
    assert_eq!(class_array.array_depth(), 3);

    assert_eq!(primitive.strip_arrays(), primitive);
    assert_eq!(class.strip_arrays(), class);
    assert_eq!(primitive_array.strip_arrays(), JVMType::TPrimitive(JVMPrimitive::TChar));
    assert_eq!(class_array.strip_arrays(), class);

    assert_eq!(primitive.class(), Some(ClassPath::java_lang_class("Integer")));
    assert_eq!(class.class(), Some(ClassPath::default()));
    assert_eq!(primitive_array.class(), None);
    assert_eq!(class_array.class(), None);

    assert_eq!(primitive.primitive(), Some("int"));
    assert_eq!(class.primitive(), None);
    assert_eq!(primitive_array.primitive(), None);
}

#[test]
fn boxing_classes_of_primitives() {
    let names = [
        (JVMPrimitive::TByte, "java.lang.Byte", "byte"),
        (JVMPrimitive::TChar, "java.lang.Character", "char"),
        (JVMPrimitive::TDouble, "java.lang.Double", "double"),
        (JVMPrimitive::TFloat, "java.lang.Float", "float"),
        (JVMPrimitive::TInt, "java.lang.Integer", "int"),
        (JVMPrimitive::TLong, "java.lang.Long", "long"),
        (JVMPrimitive::TShort, "java.lang.Short", "short"),
        (JVMPrimitive::TBoolean, "java.lang.Boolean", "boolean"),
        (JVMPrimitive::TVoid, "java.lang.Void", "void"),
    ];
    for (primitive, class, keyword) in names {
        assert_eq!(primitive.class_path().full_path(), class);
        assert_eq!(primitive.name(), keyword);
    }
}

#[test]
fn primitive_of_a_type() {
    assert_eq!(
        JVMPrimitive::from_type(JVMType::TPrimitive(JVMPrimitive::TShort)),
        Ok(JVMPrimitive::TShort)
    );
    let class = JVMType::TClass(ClassPath::default());
    assert_eq!(JVMPrimitive::from_type(class.clone()), Err(JVMTypeError::NotPrimitive(class)));
}
