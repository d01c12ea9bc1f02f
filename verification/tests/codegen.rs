use jaded::access_flags::AccessFlags;
use jaded::attribute::{AttributeTable, AttributeValue, CodeData, MethodParameter, MethodParameterData};
use jaded::class::{Class, CompilerInfo, SourceLanguage};
use jaded::class_path::ClassPath;
use jaded::codegen::backend::{generate, GenerateCode, GeneratorBackend, GeneratorResult};
use jaded::codegen::indent::{IndentKind, Indented};
use jaded::codegen::java::{
    class_signature, method_signature, primitive_name, ClassContext, FieldContext,
    GeneratorBuilder, GeneratorVerbosity, JavaContext, JavaGeneratorBuilder, JavaVersion,
    DEFAULT_HEADER,
};
use jaded::codegen::render::{GenerateError, JavaBackend, JavaScopeRequirements};
use jaded::codegen::writer::{CodeWriter, Indent};
use jaded::constant::{Constant, ConstantPool};
use jaded::instruction::{Instruction, InstructionError};
use jaded::ir::decompile;
use jaded::ir::expression::{
    CheckExpression, EmptyConstructor, EmptySuperCall, Expression, InstructionComment, OpSeq,
    ReturnStatement,
};
use jaded::ir::frame::{RuntimeFrame, StackValue};
use jaded::member::Member;
use jaded::op::Op;
use jaded::text::{decimal, hex};
use jaded::ty::{Descriptor, JVMPrimitive, JVMType};

fn flags(bits: u16) -> AccessFlags {
    AccessFlags::from_bits(bits).unwrap()
}

const ALL: JavaBackend = JavaBackend { verbosity: GeneratorVerbosity::All };
const CLEAN: JavaBackend = JavaBackend { verbosity: GeneratorVerbosity::Clean };

#[test]
fn numerals() {
    assert_eq!(decimal(0), "0");
    assert_eq!(decimal(7), "7");
    assert_eq!(decimal(10), "10");
    assert_eq!(decimal(1234567890), "1234567890");
    assert_eq!(decimal(usize::MAX), usize::MAX.to_string());
    assert_eq!(hex(0), "0");
    assert_eq!(hex(9), "9");
    assert_eq!(hex(10), "A");
    assert_eq!(hex(15), "F");
    assert_eq!(hex(16), "10");
    assert_eq!(hex(0xAB), "AB");
    assert_eq!(hex(255), "FF");
    for n in 0..=255u8 {
        assert_eq!(hex(n), format!("{:X}", n));
    }
}

#[test]
fn class_signatures() {
    assert_eq!(class_signature(flags(0)), "class");
    assert_eq!(class_signature(flags(AccessFlags::PUBLIC)), "public class");
    assert_eq!(
        class_signature(flags(AccessFlags::PUBLIC | AccessFlags::FINAL | AccessFlags::SUPER)),
        "public final class"
    );
    assert_eq!(
        class_signature(flags(
            AccessFlags::PRIVATE | AccessFlags::STATIC | AccessFlags::ABSTRACT
        )),
        "private static abstract class"
    );
    assert_eq!(
        class_signature(flags(AccessFlags::PROTECTED | AccessFlags::PRIVATE)),
        "protected class"
    );
    assert_eq!(
        class_signature(flags(AccessFlags::PUBLIC | AccessFlags::INTERFACE | AccessFlags::ABSTRACT)),
        "public abstract interface"
    );
    assert_eq!(
        class_signature(flags(AccessFlags::ENUM | AccessFlags::INTERFACE)),
        "enum"
    );
    assert_eq!(class_signature(flags(AccessFlags::ANNOTATION)), "@interface");
    assert_eq!(
        class_signature(flags(AccessFlags::ANNOTATION | AccessFlags::INTERFACE)),
        "interface"
    );
}

#[test]
fn member_signatures() {
    assert_eq!(method_signature(flags(0)), "");
    assert_eq!(method_signature(flags(AccessFlags::STATIC)), "static");
    assert_eq!(method_signature(flags(AccessFlags::PUBLIC)), "public");
    assert_eq!(
        method_signature(flags(AccessFlags::PUBLIC | AccessFlags::STATIC)),
        "public static"
    );
    assert_eq!(
        method_signature(flags(AccessFlags::PRIVATE | AccessFlags::PROTECTED | AccessFlags::FINAL)),
        "protected"
    );
    assert_eq!(FieldContext::signature(flags(AccessFlags::PRIVATE)), "private");
    assert_eq!(
        FieldContext::signature(flags(AccessFlags::PRIVATE | AccessFlags::STATIC)),
        "private static"
    );
}

#[test]
fn primitive_names() {
    assert_eq!(primitive_name(JVMPrimitive::TByte), "byte");
    assert_eq!(primitive_name(JVMPrimitive::TBoolean), "boolean");
    assert_eq!(primitive_name(JVMPrimitive::TVoid), "void");
}

#[test]
fn indentation_units() {
    assert_eq!(IndentKind::Space(0).to_string(), "");
    assert_eq!(IndentKind::Space(3).to_string(), "   ");
    assert_eq!(IndentKind::Tab.to_string(), "\t");
    assert_eq!(Indent::Space.repeat(2), "  ");
    assert_eq!(Indent::Tab.repeat(3), "\t\t\t");
    assert_eq!(Indent::Tab.repeat(0), "");
}

#[test]
fn indented_sink_follows_blocks() {
    let mut sink = Indented::new(Vec::new(), IndentKind::Space(2), 0, b"{", b"}");
    assert_eq!(sink.indent_string(), "");
    let written = sink.write(b"a {\nb {\nc\n}\n}\nd");
    assert_eq!(String::from_utf8(sink.inner.clone()).unwrap(), "a {\n  b {\n    c\n    }\n  }\nd");
    assert_eq!(written, sink.inner.len());
    assert_eq!(sink.level, 0);
    sink.exit_block();
    assert_eq!(sink.level, 0);
    sink.enter_block();
    sink.enter_block();
    assert_eq!(sink.level, 2);
    assert_eq!(sink.indent_string(), "    ");
    sink.exit_block();
    assert_eq!(sink.indent_string(), "  ");
    assert_eq!(sink.write(b"\n"), 3);
    let out = sink.into_inner();
    assert!(out.ends_with(b"d\n  "));
}

#[test]
fn indented_sink_with_tabs_and_start_level() {
    let mut sink = Indented::new(vec![b'>'], IndentKind::Tab, 1, b"([", b")]");
    assert_eq!(sink.write(b"x\n(\n[\n]\n)\n"), 19);
    assert_eq!(sink.write_all(b"y"), Ok(()));
    assert_eq!(sink.into_inner(), b">x\n\t(\n\t\t[\n\t\t\t]\n\t\t)\n\ty".to_vec());
}

#[test]
fn code_writer_indents_new_lines() {
    let mut writer = CodeWriter::new(String::from("> "));
    assert_eq!(writer.indent_string(), "    ");
    writer.write_str("a\nb\n");
    assert_eq!(writer.inner, "> a\n    b\n    ");
    writer.enter_block();
    assert_eq!(writer.state_indent, 1);
    writer.exit_block();
    writer.exit_block();
    assert_eq!(writer.state_indent, 0);
    writer.indent_kind = Indent::Tab;
    writer.indent_level_count = 1;
    writer.write_str("\n");
    assert_eq!(writer.into_inner(), "> a\n    b\n    \n\t");
}

#[test]
fn builder_and_settings() {
    let default = JavaContext::default();
    assert_eq!(default.target_version, JavaVersion::Java20);
    assert_eq!(default.header_message.as_deref(), Some(DEFAULT_HEADER));
    assert_eq!(default.indentation, IndentKind::Space(2));
    assert!(default.constant_pool.is_none());

    let built = GeneratorBuilder::java().version(JavaVersion::Java8).no_header().build();
    assert_eq!(built.target_version, JavaVersion::Java8);
    assert_eq!(built.header_message, None);

    let with_header = JavaGeneratorBuilder::new().no_header().header("Hello").build();
    assert_eq!(with_header.header_message.as_deref(), Some("Hello"));
    assert_eq!(JavaVersion::default(), JavaVersion::Java20);
    assert_eq!(ALL.name(), "Java");
    assert_eq!(JavaBackend::NAME, "Java");
    assert_eq!(ALL.verbosity(), GeneratorVerbosity::All);
    assert_eq!(ClassContext::default().class_name, ClassPath::default());
}

#[test]
fn imports_are_kept_once() {
    let list = ClassPath::parse("java/util/List").unwrap();
    let map = ClassPath::parse("java/util/Map").unwrap();
    let mut req = JavaScopeRequirements::default();
    req.add_import(vec![list.clone(), map.clone(), list.clone()]);
    assert_eq!(req.imports, vec![list.clone(), map.clone()]);
    req.insert(map.clone());
    assert_eq!(req.imports.len(), 2);
    let mut other = JavaScopeRequirements::default();
    other.insert(ClassPath::default());
    other.insert(list.clone());
    req.merge(other);
    assert_eq!(req.imports, vec![list, map, ClassPath::default()]);
}

#[test]
fn types_are_spelled_by_simple_name() {
    let list = ClassPath::parse("java/util/List").unwrap();
    let (text, req) = ALL.write_type(&JVMType::TPrimitive(JVMPrimitive::TInt));
    assert_eq!(text, "int");
    assert!(req.imports.is_empty());
    let (text, req) = ALL.write_type(&JVMType::TClass(list.clone()));
    assert_eq!(text, "List");
    assert_eq!(req.imports, vec![list.clone()]);
    let (text, req) = ALL.write_type(&JVMType::TClass(ClassPath::java_lang_class("String")));
    assert_eq!(text, "String");
    assert!(req.imports.is_empty());
    let (text, _) = ALL.write_type(&JVMType::TPrimitiveArray { depth: 2, inner: JVMPrimitive::TByte });
    assert_eq!(text, "byte[][]");
    let (text, req) = ALL.write_type(&JVMType::TClassArray { depth: 1, inner: list.clone() });
    assert_eq!(text, "List[]");
    assert_eq!(req.imports, vec![list]);
}

fn member(bits: u16, name: &str, descriptor: &str, attributes: AttributeTable) -> Member {
    Member {
        access_flags: flags(bits),
        name: name.to_string(),
        descriptor: Descriptor::parse(descriptor).unwrap(),
        attributes,
    }
}

fn code(bytes: &[u8]) -> AttributeTable {
    let mut table = AttributeTable::new();
    table.insert(
        "Code".to_string(),
        AttributeValue::Code(CodeData {
            max_stack: 1,
            max_locals: 1,
            code: bytes.to_vec(),
            exception_table: vec![],
            attributes: AttributeTable::new(),
        }),
    );
    table
}

#[test]
fn field_declaration() {
    let field = member(AccessFlags::PRIVATE | AccessFlags::STATIC, "items", "Ljava/util/List;", AttributeTable::new());
    let (bytes, req) = ALL.write_field(&field);
    assert_eq!(String::from_utf8(bytes).unwrap(), "private static List items;\n");
    assert_eq!(req.imports, vec![ClassPath::parse("java/util/List").unwrap()]);
    let plain = member(0, "n", "I", AttributeTable::new());
    assert_eq!(String::from_utf8(ALL.write_field(&plain).0).unwrap(), " int n;\n");
}

#[test]
fn statements() {
    let comment = Expression::Comment(InstructionComment(Instruction {
        op: Op::Sipush,
        args: [0x01, 0xAB, 0, 0],
    }));
    assert_eq!(
        String::from_utf8(ALL.write_expression(&comment).unwrap()).unwrap(),
        "// asm: sipush 0x1 0xAB 0x0 0x0\n"
    );
    let call = Expression::Super(EmptySuperCall);
    assert_eq!(ALL.write_expression(&call).unwrap(), b"super();\n".to_vec());
    assert_eq!(CLEAN.write_expression(&call).unwrap(), Vec::<u8>::new());
    assert_eq!(
        ALL.write_expression(&Expression::EmptyConstructor(EmptyConstructor)),
        Err(GenerateError::UnsupportedExpression)
    );
    assert_eq!(
        ALL.write_expression(&Expression::ReturnStatement(ReturnStatement)),
        Err(GenerateError::UnsupportedExpression)
    );
    assert_eq!(
        ALL.write_body(&vec![call, comment]).map(|b| String::from_utf8(b).unwrap()),
        Ok("super();\n// asm: sipush 0x1 0xAB 0x0 0x0\n".to_string())
    );
    assert_eq!(
        ALL.write_body(&vec![call, Expression::ReturnStatement(ReturnStatement)]),
        Err(GenerateError::UnsupportedExpression)
    );
}

#[test]
fn patterns() {
    let body = Instruction::decode_buffer(&[0x2a, 0xb7, 0, 1, 0xb1]).unwrap();
    let pool = ConstantPool::new();
    let code = CodeData {
        max_stack: 3,
        max_locals: 2,
        code: vec![],
        exception_table: vec![],
        attributes: AttributeTable::new(),
    };
    let mut frame = RuntimeFrame::new(&pool, &code);
    assert_eq!(frame.stack_size, 3);
    assert_eq!(frame.max_locals, 2);
    frame.push_to_stack(StackValue::Unknown);
    let inner = frame.new_inner();
    assert_eq!(inner.stack, vec![StackValue::Unknown]);

    assert!(OpSeq([Op::Aload0, Op::Invokespecial]).test(&body, 0));
    assert!(!OpSeq([Op::Aload0, Op::Invokespecial]).test(&body, 1));
    assert!(OpSeq([Op::Return]).test(&body, 2));
    assert!(!OpSeq([Op::Return]).test(&body, 3));
    assert!(!OpSeq([Op::Return]).test(&body, 9));
    assert!(OpSeq::<0>([]).test(&body, 3));

    assert_eq!(
        EmptyConstructor::test(&body, 0, &frame),
        Some((3, Expression::EmptyConstructor(EmptyConstructor)))
    );
    assert_eq!(
        EmptyConstructor::test(&body, 1, &frame),
        Some((2, Expression::EmptyConstructor(EmptyConstructor)))
    );
    assert_eq!(EmptyConstructor::test(&body[..2], 0, &frame), None);
    assert_eq!(
        EmptySuperCall::test(&body, 0, &frame),
        Some((2, Expression::Super(EmptySuperCall)))
    );
    assert_eq!(EmptySuperCall::test(&body, 1, &frame), None);
    assert_eq!(
        ReturnStatement::test(&body, 2, &frame),
        Some((1, Expression::ReturnStatement(ReturnStatement)))
    );
    assert_eq!(ReturnStatement::test(&body, 0, &frame), None);
    assert_eq!(
        InstructionComment::test(&body, 1, &frame),
        Some((1, Expression::Comment(InstructionComment(body[1]))))
    );
}

#[test]
fn statements_of_a_body() {
    let pool = ConstantPool::new();
    let bytes = [0x2a, 0xb7, 0, 1, 0xb1];
    let table = code(&bytes);
    let body = match table.get("Code") {
        Some(AttributeValue::Code(code)) => code,
        _ => unreachable!(),
    };
    let constructor = member(1, "<init>", "()V", AttributeTable::new());
    assert_eq!(
        decompile(&pool, &constructor, body),
        Ok(vec![Expression::EmptyConstructor(EmptyConstructor)])
    );
    let method = member(1, "run", "()V", AttributeTable::new());
    assert_eq!(
        decompile(&pool, &method, body),
        Ok(vec![
            Expression::Super(EmptySuperCall),
            Expression::Comment(InstructionComment(Instruction {
                op: Op::Return,
                args: [0, 0, 0, 0]
            })),
        ])
    );
    let broken = CodeData {
        max_stack: 0,
        max_locals: 0,
        code: vec![0xCB],
        exception_table: vec![],
        attributes: AttributeTable::new(),
    };
    assert_eq!(
        decompile(&pool, &method, &broken),
        Err(InstructionError::UnsupportedOpcode { position: 0, opcode: 0xCB })
    );
}

fn names_pool() -> ConstantPool {
    let mut pool = ConstantPool::new();
    pool.insert(Constant::Utf8 { value: "count".to_string() }); // 1
    pool.insert(Constant::Integer { value: 0 }); // 2
    pool
}

#[test]
fn method_with_arguments() {
    let pool = names_pool();
    let mut attributes = code(&[0xb1]);
    attributes.insert(
        "MethodParameters".to_string(),
        AttributeValue::MethodParameters(MethodParameterData {
            parameters: vec![
                MethodParameter { name_index: 1, access_flags: 0 },
                MethodParameter { name_index: 2, access_flags: 0 },
            ],
        }),
    );
    let method = member(
        AccessFlags::PUBLIC | AccessFlags::STATIC,
        "run",
        "(I[JLjava/util/List;)Ljava/util/Map;",
        attributes,
    );
    let ctx = ClassContext { class_name: ClassPath::parse("a/Main").unwrap(), synthetic: false };
    let (bytes, req) = ALL.write_method_in(Some(&pool), &ctx, &method).unwrap();
    assert_eq!(
        String::from_utf8(bytes).unwrap(),
        "public static Map run(int count, long[] arg_1, List arg_2) {\n// asm: return 0x0 0x0 0x0 0x0\n}\n"
    );
    assert_eq!(
        req.imports,
        vec![ClassPath::parse("java/util/Map").unwrap(), ClassPath::parse("java/util/List").unwrap()]
    );
}

#[test]
fn constructors_and_synthetic_methods() {
    let pool = names_pool();
    let ctx = ClassContext { class_name: ClassPath::parse("a/Main").unwrap(), synthetic: true };
    let constructor = member(AccessFlags::PUBLIC, "<init>", "(I)V", code(&[0x2a, 0xb7, 0, 1, 0x00]));
    let (bytes, req) = ALL.write_method_in(Some(&pool), &ctx, &constructor).unwrap();
    assert_eq!(
        String::from_utf8(bytes).unwrap(),
        "// synthetic method\n\npublic Main(int arg_0) {\nsuper();\n// asm: nop 0x0 0x0 0x0 0x0\n}\n"
    );
    assert!(req.imports.is_empty());
    let (bytes, _) = CLEAN.write_method_in(Some(&pool), &ctx, &constructor).unwrap();
    assert_eq!(
        String::from_utf8(bytes).unwrap(),
        "// synthetic method\n\npublic Main(int arg_0) {\n// asm: nop 0x0 0x0 0x0 0x0\n}\n"
    );

    let empty = member(0, "<init>", "()V", code(&[]));
    assert_eq!(ALL.write_method_in(Some(&pool), &ctx, &empty).unwrap().0, Vec::<u8>::new());
    assert_eq!(
        String::from_utf8(CLEAN.write_method_in(Some(&pool), &ctx, &empty).unwrap().0).unwrap(),
        "// synthetic method\n\n Main() {\n}\n"
    );
}

#[test]
fn method_failures() {
    let pool = names_pool();
    let ctx = ClassContext::default();
    let no_code = member(1, "run", "()V", AttributeTable::new());
    assert_eq!(ALL.write_method_in(Some(&pool), &ctx, &no_code).err(), Some(GenerateError::NoCode));
    let with_code = member(1, "run", "()V", code(&[0xb1]));
    assert_eq!(ALL.write_method_in(None, &ctx, &with_code).err(), Some(GenerateError::NoConstantPool));
    assert_eq!(
        ALL.write_method(&JavaContext::default(), &ctx, &with_code).err(),
        Some(GenerateError::NoConstantPool)
    );
    let broken = member(1, "run", "()V", code(&[0xb7]));
    assert_eq!(
        ALL.write_method_in(Some(&pool), &ctx, &broken).err(),
        Some(GenerateError::Instruction(InstructionError::IncompleteInstruction {
            position: 0,
            opcode: 0xb7
        }))
    );
    let usual = member(1, "<init>", "()V", code(&[0x2a, 0xb7, 0, 1, 0xb1]));
    assert_eq!(
        ALL.write_method_in(Some(&pool), &ctx, &usual).err(),
        Some(GenerateError::UnsupportedExpression)
    );
}

fn sample_class(name: &str) -> Class {
    Class {
        compiler_info: CompilerInfo { major: 52, minor: 0, language: SourceLanguage::Java },
        access_flags: flags(AccessFlags::PUBLIC | AccessFlags::SUPER),
        constant_pool: names_pool(),
        class_name: ClassPath::parse(name).unwrap(),
        super_name: Some(ClassPath::parse("a/Base").unwrap()),
        interfaces: vec![
            ClassPath::parse("java/lang/Runnable").unwrap(),
            ClassPath::parse("java/util/List").unwrap(),
        ],
        fields: vec![member(AccessFlags::PRIVATE, "items", "Ljava/util/Map;", AttributeTable::new())],
        methods: vec![member(AccessFlags::PUBLIC, "run", "()V", code(&[0xb1]))],
        attributes: AttributeTable::new(),
    }
}

const EXPECTED: &str = "/*\n * one\n * two\n */\npackage com.example;\n\nimport a.Base;\nimport java.lang.Runnable;\nimport java.util.List;\nimport java.util.Map;\n\npublic class Hello extends Base implements Runnable, List {\nprivate Map items;\n  public void run() {\n    // asm: return 0x0 0x0 0x0 0x0\n    }\n  }\n";

#[test]
fn class_source() {
    let class = sample_class("com/example/Hello");
    let lang = GeneratorBuilder::java().header("one\ntwo").build();
    let (text, req) = ALL.generate(&lang, &class).unwrap();
    assert_eq!(text, EXPECTED);
    assert!(req.imports.is_empty());
    let (bytes, _) = ALL.write_class(&lang, &class).unwrap();
    assert_eq!(bytes, EXPECTED.as_bytes());

    let mut out = vec![b'#'];
    let written = ALL.write_value(&lang, &(), &class, &mut out);
    assert!(written.is_ok());
    assert_eq!(&out[1..], EXPECTED.as_bytes());
    let generated = generate(&ALL, &lang, &(), &class).unwrap();
    assert_eq!(generated.0, EXPECTED);
}

#[test]
fn class_source_without_extras() {
    let mut class = sample_class("Hello");
    class.super_name = Some(ClassPath::default());
    class.interfaces = vec![];
    class.fields = vec![];
    class.methods = vec![];
    let lang = GeneratorBuilder::java().no_header().build();
    assert_eq!(ALL.generate(&lang, &class).unwrap().0, "\npublic class Hello {\n}\n");
    class.super_name = None;
    assert_eq!(ALL.generate(&lang, &class).unwrap().0, "\npublic class Hello {\n}\n");
}

#[test]
fn class_failures() {
    let lang = JavaContext::default();
    let nested = sample_class("com/example/Outer$Inner");
    assert_eq!(ALL.generate(&lang, &nested).err(), Some(GenerateError::NestedClass));
    let mut broken = sample_class("Hello");
    broken.methods.push(member(1, "abstract", "()V", AttributeTable::new()));
    assert_eq!(ALL.write_class(&lang, &broken).err(), Some(GenerateError::NoCode));
    let mut out = vec![1, 2, 3];
    assert_eq!(ALL.write_value(&lang, &(), &broken, &mut out).err(), Some(GenerateError::NoCode));
    assert_eq!(out, vec![1, 2, 3]);
}

#[test]
fn results_carry_requirements() {
    let mut req = JavaScopeRequirements::default();
    req.insert(ClassPath::default());
    let result: GeneratorResult<JavaBackend, u8, GenerateError> =
        GeneratorResult::from((Ok(7), req));
    assert_eq!(result.deref(), &Ok(7));
    let done = result.try_into().ok().unwrap();
    assert_eq!(done.value, 7);
    assert_eq!(done.requirements.imports, vec![ClassPath::default()]);
    let failed: GeneratorResult<JavaBackend, u8, GenerateError> =
        GeneratorResult::from((Err(GenerateError::NoCode), JavaScopeRequirements::default()));
    assert_eq!(failed.try_into().err(), Some(GenerateError::NoCode));
}

#[test]
fn trait_renders_types_and_fields() {
    let lang = JavaContext::default();
    let mut out = Vec::new();
    ALL.write_value(&lang, &(), &JVMType::TPrimitive(JVMPrimitive::TChar), &mut out).unwrap();
    assert_eq!(out, b"char".to_vec());
    let field = member(AccessFlags::PUBLIC, "x", "J", AttributeTable::new());
    ALL.write_value(&lang, &FieldContext, &field, &mut out).unwrap();
    assert_eq!(out, b"charpublic long x;\n".to_vec());
    let text = generate(&ALL, &lang, &FieldContext, &field).unwrap().0;
    assert_eq!(text, "public long x;\n");
}
