use jaded::attribute::{
    AnnotationDefaultData, AttributeTable, AttributeValue, CodeData, EnclosingMethodData,
    ExceptionData, InnerClassData, LineNumberTable, LocalVariableTable, LocalVariableTypeTable,
    MethodParameterData, SignatureData,
};
use jaded::class_path::{ClassPath, STARTS_WITH_SEPARATOR};
use jaded::constant::{Constant, ConstantTag};
use jaded::cursor::{ByteCursor, ReadByteVecExt, ReadError};
use jaded::dependency::{Dependency, DependencyInfo};
use jaded::error::{ClassPathError, ConstantPoolError};
use jaded::model::{ControlFlow, Declaration, Expression, ExpressionBlock, Type};
use jaded::settings::Settings;
use jaded::ty::{JVMPrimitive, JVMType, TypeSpecifier};

fn read_two<R: ReadByteVecExt>(r: &mut R) -> Result<Vec<u8>, ReadError> {
    r.read_byte_vec(2)
}

#[test]
fn byte_vectors_through_the_trait() {
    let bytes = [1, 2, 3];
    let mut cursor = ByteCursor::new(&bytes);
    assert_eq!(read_two(&mut cursor), Ok(vec![1, 2]));
    assert_eq!(read_two(&mut cursor), Err(ReadError::UnexpectedEof));
    assert_eq!(cursor.offset(), 3);
}

#[test]
fn types_from_their_parts() {
    assert_eq!(JVMType::from(JVMPrimitive::TInt), JVMType::TPrimitive(JVMPrimitive::TInt));
    assert_eq!(JVMType::from(ClassPath::default()), JVMType::TClass(ClassPath::default()));
    let specifier = TypeSpecifier(JVMType::from(JVMPrimitive::TVoid));
    assert_eq!(specifier.0, JVMType::TPrimitive(JVMPrimitive::TVoid));
}

#[test]
fn class_path_of_a_constant() {
    assert_eq!(
        ClassPath::from_constant(&Constant::Utf8 { value: "java/lang/Object".to_string() }),
        Ok(ClassPath::default())
    );
    assert_eq!(
        ClassPath::from_constant(&Constant::Utf8 { value: "/x".to_string() }),
        Err(ClassPathError::InvalidIdentifier {
            identifier: String::new(),
            reason: STARTS_WITH_SEPARATOR
        })
    );
    assert_eq!(
        ClassPath::from_constant(&Constant::Class { name_index: 1 }),
        Err(ClassPathError::ConstantPool(ConstantPoolError::UnexpectedType {
            found: ConstantTag::Class,
            expected: ConstantTag::Utf8
        }))
    );
}

#[test]
fn attribute_values_from_their_data() {
    let code = CodeData {
        max_stack: 0,
        max_locals: 0,
        code: vec![],
        exception_table: vec![],
        attributes: AttributeTable::new(),
    };
    assert!(matches!(AttributeValue::from(code), AttributeValue::Code(_)));
    assert_eq!(
        AttributeValue::from(ExceptionData { exceptions: vec![1] }),
        AttributeValue::Exceptions(ExceptionData { exceptions: vec![1] })
    );
    assert!(matches!(
        AttributeValue::from(InnerClassData { classes: vec![] }),
        AttributeValue::InnerClasses(_)
    ));
    assert!(matches!(
        AttributeValue::from(LineNumberTable { table: vec![] }),
        AttributeValue::LineNumberTable(_)
    ));
    assert!(matches!(
        AttributeValue::from(LocalVariableTable { table: vec![] }),
        AttributeValue::LocalVariableTable(_)
    ));
    assert!(matches!(
        AttributeValue::from(AnnotationDefaultData { default: vec![] }),
        AttributeValue::AnnotationDefault(_)
    ));
    assert!(matches!(
        AttributeValue::from(EnclosingMethodData { class_index: 1, method_index: 2 }),
        AttributeValue::EnclosingMethod(_)
    ));
    assert!(matches!(
        AttributeValue::from(LocalVariableTypeTable { table: vec![] }),
        AttributeValue::LocalVariableTypeTable(_)
    ));
    assert!(matches!(
        AttributeValue::from(SignatureData { signature: String::new() }),
        AttributeValue::Signature(_)
    ));
    assert!(matches!(
        AttributeValue::from(MethodParameterData { parameters: vec![] }),
        AttributeValue::MethodParameters(_)
    ));
}

#[test]
fn plain_data() {
    let info = DependencyInfo {
        dependency: Dependency::Jar { path: "lib/a.jar".to_string() },
        classes: vec!["a.Main".to_string()],
    };
    assert_eq!(info.clone(), info);
    let settings = Settings { project_name: Some("demo".to_string()) };
    assert_eq!(settings.project_name.as_deref(), Some("demo"));
    let declaration = Declaration {
        of: "x".to_string(),
        t: Type::Primitive,
        value: Expression::FlowControl(Box::new(ControlFlow::While {
            condition: Expression::Literal { value: 1 },
            content: ExpressionBlock {},
        })),
    };
    assert_eq!(declaration.t, Type::Primitive);
    assert!(matches!(declaration.value, Expression::FlowControl(_)));
}
