//! The Java backend at work: the bytes it writes for types, fields,
//! statements, methods and classes, and the imports they call for.

use crate::attribute::{table_get, AttributeValue, AttributeValueView, CodeData, TableView};
use crate::class::{members_view, paths_view, Class, ClassView};
use crate::class_path::{ClassPath, ClassPathView};
use crate::codegen::indent::{spec_write_from, IndentKind, Indented};
use crate::codegen::java::{
    class_signature, method_signature, primitive_name, spec_class_signature,
    spec_member_signature, ClassContext, FieldContext, GeneratorVerbosity, JavaContext,
    JavaVersion,
};
use crate::constant::{Constant, ConstantPool, ConstantPoolView, ConstantView};
use crate::instruction::{spec_decode, Instruction, InstructionError};
use crate::ir::decompile;
use crate::ir::expression::Expression;
use crate::ir::spec_decompile;
use crate::member::{Member, MemberView};
use crate::text::{
    decimal, hex, repeat_str, spec_decimal, spec_hex, spec_repeat, spec_split, split,
    string_from_utf8, strings_view,
};
use crate::ty::{types_view, JVMType, JVMTypeView};
use vstd::prelude::*;
use vstd::utf8::{decode_utf8, encode_utf8, valid_utf8};

verus! {

/// Why the backend cannot render its input.
#[derive(Debug, Clone, Copy, PartialEq, Eq, Structural)]
pub enum GenerateError {
    /// A method has no code body.
    NoCode,
    /// No constant pool is at hand to resolve names.
    NoConstantPool,
    /// A statement has no rendering yet.
    UnsupportedExpression,
    /// The class is nested in another, which has no rendering yet.
    NestedClass,
    /// The instruction bytes of a method do not decode.
    Instruction(InstructionError),
    /// The text is too long for its blocks to be counted.
    TooLong,
    /// The bytes written are not text.
    InvalidText,
}

/// What a rendered piece of source text needs from the file around it: the
/// classes to import, each once, and the language level.
#[derive(Debug)]
pub struct JavaScopeRequirements {
    pub imports: Vec<ClassPath>,
    pub language_level: JavaVersion,
}

/// The mathematical value of a [`JavaScopeRequirements`].
pub struct RequirementsView {
    pub imports: Seq<ClassPathView>,
    pub language_level: JavaVersion,
}

impl View for JavaScopeRequirements {
    type V = RequirementsView;

    open spec fn view(&self) -> RequirementsView {
        RequirementsView {
            imports: paths_view(self.imports@),
            language_level: self.language_level,
        }
    }
}

/// The requirements that consist of the imports `imports` alone, at the
/// newest language level.
pub open spec fn spec_requirements(imports: Seq<ClassPathView>) -> RequirementsView {
    RequirementsView { imports, language_level: JavaVersion::Java20 }
}

/// The imports `imports` with `import` added at the end, unless it is among
/// them already.
pub open spec fn spec_add_import(imports: Seq<ClassPathView>, import: ClassPathView) -> Seq<
    ClassPathView,
> {
    if imports.contains(import) {
        imports
    } else {
        imports.push(import)
    }
}

/// The imports `imports` with each of `more` from `pos` on added in order.
pub open spec fn spec_add_imports(
    imports: Seq<ClassPathView>,
    more: Seq<ClassPathView>,
    pos: int,
) -> Seq<ClassPathView>
    decreases more.len() - pos,
{
    if pos < 0 || pos >= more.len() {
        imports
    } else {
        spec_add_imports(spec_add_import(imports, more[pos]), more, pos + 1)
    }
}

impl Default for JavaScopeRequirements {
    /// No imports, the newest language level.
    fn default() -> (r: JavaScopeRequirements)
        ensures
            r@ == spec_requirements(Seq::empty()),
    {
        let r = JavaScopeRequirements { imports: Vec::new(), language_level: JavaVersion::Java20 };
        assert(paths_view(r.imports@) =~= Seq::<ClassPathView>::empty());
        r
    }
}

impl JavaScopeRequirements {
    /// Whether `import` is among the imports.
    fn holds(&self, import: &ClassPath) -> (r: bool)
        ensures
            r == paths_view(self.imports@).contains(import@),
    {
        let mut i: usize = 0;
        while i < self.imports.len()
            invariant
                i <= self.imports.len(),
                forall|j: int| 0 <= j < i ==> paths_view(self.imports@)[j] != import@,
            decreases self.imports.len() - i,
        {
            if self.imports[i].same_as(import) {
                assert(paths_view(self.imports@)[i as int] == import@);
                return true;
            }
            i += 1;
        }
        false
    }

    /// Adds `import` unless it is among the imports already.
    pub fn insert(&mut self, import: ClassPath)
        ensures
            paths_view(final(self).imports@) == spec_add_import(
                paths_view(old(self).imports@),
                import@,
            ),
            final(self).language_level == old(self).language_level,
    {
        if !self.holds(&import) {
            self.imports.push(import);
        }
    }

    /// Adds each of `imports` in order, unless it is among the imports
    /// already.
    pub fn add_import(&mut self, imports: Vec<ClassPath>)
        ensures
            paths_view(final(self).imports@) == spec_add_imports(
                paths_view(old(self).imports@),
                paths_view(imports@),
                0,
            ),
            final(self).language_level == old(self).language_level,
    {
        let mut i: usize = 0;
        while i < imports.len()
            invariant
                i <= imports.len(),
                self.language_level == old(self).language_level,
                spec_add_imports(paths_view(old(self).imports@), paths_view(imports@), 0)
                    == spec_add_imports(paths_view(self.imports@), paths_view(imports@), i as int),
            decreases imports.len() - i,
        {
            self.insert(imports[i].clone());
            i += 1;
        }
    }

    /// Adds the imports of `other`.
    pub fn merge(&mut self, other: JavaScopeRequirements)
        ensures
            paths_view(final(self).imports@) == spec_add_imports(
                paths_view(old(self).imports@),
                paths_view(other.imports@),
                0,
            ),
            final(self).language_level == old(self).language_level,
    {
        self.add_import(other.imports);
    }
}

/// Appends the UTF-8 bytes of `text` to `out`.
fn put(out: &mut Vec<u8>, text: &str)
    ensures
        final(out)@ == old(out)@ + encode_utf8(text@),
{
    out.extend_from_slice(text.as_bytes());
}

/// Appends `bytes` to `out`.
fn put_bytes(out: &mut Vec<u8>, bytes: &[u8])
    ensures
        final(out)@ == old(out)@ + bytes@,
{
    out.extend_from_slice(bytes);
}

/// How the type `t` is spelled: a primitive by its keyword, a class by its
/// simple name, an array by its element followed by `[]` once per dimension.
pub open spec fn spec_type_text(t: JVMTypeView) -> Seq<char> {
    match t {
        JVMTypeView::TPrimitive(p) => p.keyword(),
        JVMTypeView::TClass(c) => c.name,
        JVMTypeView::TPrimitiveArray { depth, inner } => inner.keyword() + spec_repeat(
            "[]"@,
            depth as nat,
        ),
        JVMTypeView::TClassArray { depth, inner } => inner.name + spec_repeat("[]"@, depth as nat),
    }
}

/// The imports that the type `t` calls for: its class, unless that is in
/// `java.lang`.
pub open spec fn spec_type_imports(t: JVMTypeView) -> Seq<ClassPathView> {
    match t {
        JVMTypeView::TClass(c) => if c.is_in_java_lang() {
            Seq::empty()
        } else {
            seq![c]
        },
        JVMTypeView::TClassArray { inner, .. } => if inner.is_in_java_lang() {
            Seq::empty()
        } else {
            seq![inner]
        },
        _ => Seq::empty(),
    }
}

/// The bytes of a field declaration: modifiers, type, name and `;`, each
/// separated by a space, and a line break.
pub open spec fn spec_field_bytes(field: MemberView) -> Seq<u8> {
    encode_utf8(spec_member_signature(field.access_flags)) + encode_utf8(" "@) + encode_utf8(
        spec_type_text(field.descriptor.value),
    ) + encode_utf8(" "@) + encode_utf8(field.name) + encode_utf8(";\n"@)
}

/// The bytes of one operand of an instruction comment.
pub open spec fn spec_operand_bytes(operand: u8) -> Seq<u8> {
    encode_utf8(" 0x"@) + encode_utf8(spec_hex(operand))
}

/// The bytes of an instruction kept as a comment: the mnemonic and the four
/// operand bytes in hexadecimal.
pub open spec fn spec_comment_bytes(instruction: Instruction) -> Seq<u8> {
    encode_utf8("// asm: "@) + encode_utf8(instruction.op.spec_name()) + spec_operand_bytes(
        instruction.args@[0],
    ) + spec_operand_bytes(instruction.args@[1]) + spec_operand_bytes(instruction.args@[2])
        + spec_operand_bytes(instruction.args@[3]) + encode_utf8("\n"@)
}

/// The bytes of a statement: an instruction comment, or a call of the
/// superclass's constructor, which is written out only when everything is.
/// The other statements have no rendering.
pub open spec fn spec_expression_bytes(expression: Expression, verbosity: GeneratorVerbosity) -> Result<
    Seq<u8>,
    GenerateError,
> {
    match expression {
        Expression::Comment(comment) => Ok(spec_comment_bytes(comment.0)),
        Expression::Super(_) => if verbosity == GeneratorVerbosity::All {
            Ok(encode_utf8("super();\n"@))
        } else {
            Ok(Seq::empty())
        },
        _ => Err(GenerateError::UnsupportedExpression),
    }
}

/// The bytes of the statements of `expressions` from `pos` on, after the
/// bytes `out`.
pub open spec fn spec_body_bytes(
    expressions: Seq<Expression>,
    pos: int,
    out: Seq<u8>,
    verbosity: GeneratorVerbosity,
) -> Result<Seq<u8>, GenerateError>
    decreases expressions.len() - pos,
{
    if pos < 0 || pos >= expressions.len() {
        Ok(out)
    } else {
        match spec_expression_bytes(expressions[pos], verbosity) {
            Err(e) => Err(e),
            Ok(bytes) => spec_body_bytes(expressions, pos + 1, out + bytes, verbosity),
        }
    }
}

/// The Java backend.
#[derive(Debug, Clone, Copy, PartialEq, Eq, Structural)]
pub struct JavaBackend {
    /// How much is written out.
    pub verbosity: GeneratorVerbosity,
}

impl JavaBackend {
    /// The name of the backend.
    pub const NAME: &'static str = "Java";

    /// How much the backend writes out.
    pub fn verbosity(&self) -> (r: GeneratorVerbosity)
        ensures
            r == self.verbosity,
    {
        self.verbosity
    }

    /// How the type `input` is spelled, and the imports it calls for.
    pub fn write_type(&self, input: &JVMType) -> (r: (String, JavaScopeRequirements))
        ensures
            r.0@ == spec_type_text(input@),
            r.1@ == spec_requirements(spec_type_imports(input@)),
    {
        let mut req = JavaScopeRequirements::default();
        let mut out = String::new();
        match input {
            JVMType::TPrimitive(primitive) => {
                out.append(primitive_name(*primitive));
            },
            JVMType::TClass(class) => {
                if !class.is_in_java_lang() {
                    req.insert(class.clone());
                }
                out.append(class.name.as_str());
            },
            JVMType::TPrimitiveArray { depth, inner } => {
                out.append(primitive_name(*inner));
                let brackets = repeat_str("[]", *depth);
                out.append(brackets.as_str());
            },
            JVMType::TClassArray { depth, inner } => {
                if !inner.is_in_java_lang() {
                    req.insert(inner.clone());
                }
                out.append(inner.name.as_str());
                let brackets = repeat_str("[]", *depth);
                out.append(brackets.as_str());
            },
        }
        (out, req)
    }

    /// The bytes of the declaration of `field`, and the imports its type
    /// calls for.
    pub fn write_field(&self, field: &Member) -> (r: (Vec<u8>, JavaScopeRequirements))
        ensures
            r.0@ == spec_field_bytes(field@),
            r.1@ == spec_requirements(spec_type_imports(field@.descriptor.value)),
    {
        let mut out: Vec<u8> = Vec::new();
        let signature = FieldContext::signature(field.access_flags);
        put(&mut out, signature.as_str());
        put(&mut out, " ");
        let (spelled, req) = self.write_type(&field.descriptor.value);
        put(&mut out, spelled.as_str());
        put(&mut out, " ");
        put(&mut out, field.name.as_str());
        put(&mut out, ";\n");
        (out, req)
    }

    /// The bytes of the statement `input`.
    pub fn write_expression(&self, input: &Expression) -> (r: Result<Vec<u8>, GenerateError>)
        ensures
            match r {
                Ok(bytes) => spec_expression_bytes(*input, self.verbosity) == Ok::<
                    Seq<u8>,
                    GenerateError,
                >(bytes@),
                Err(e) => spec_expression_bytes(*input, self.verbosity) == Err::<
                    Seq<u8>,
                    GenerateError,
                >(e),
            },
    {
        let mut out: Vec<u8> = Vec::new();
        match input {
            Expression::Comment(comment) => {
                put(&mut out, "// asm: ");
                put(&mut out, comment.0.op.name());
                let mut i: usize = 0;
                while i < 4
                    invariant
                        i <= 4,
                        out@ == spec_comment_prefix(comment.0, i as int),
                    decreases 4 - i,
                {
                    put(&mut out, " 0x");
                    let digits = hex(comment.0.args[i]);
                    put(&mut out, digits.as_str());
                    i += 1;
                }
                put(&mut out, "\n");
                proof {
                    reveal_with_fuel(spec_comment_prefix, 5);
                }
                Ok(out)
            },
            Expression::Super(_) => {
                match self.verbosity {
                    GeneratorVerbosity::All => {
                        put(&mut out, "super();\n");
                    },
                    GeneratorVerbosity::Clean => {},
                }
                Ok(out)
            },
            _ => Err(GenerateError::UnsupportedExpression),
        }
    }

    /// The bytes of the statements `expressions`, one after the other.
    pub fn write_body(&self, expressions: &Vec<Expression>) -> (r: Result<Vec<u8>, GenerateError>)
        ensures
            match r {
                Ok(bytes) => spec_body_bytes(expressions@, 0, Seq::empty(), self.verbosity) == Ok::<
                    Seq<u8>,
                    GenerateError,
                >(bytes@),
                Err(e) => spec_body_bytes(expressions@, 0, Seq::empty(), self.verbosity) == Err::<
                    Seq<u8>,
                    GenerateError,
                >(e),
            },
    {
        let mut out: Vec<u8> = Vec::new();
        let mut i: usize = 0;
        while i < expressions.len()
            invariant
                i <= expressions.len(),
                spec_body_bytes(expressions@, 0, Seq::empty(), self.verbosity) == spec_body_bytes(
                    expressions@,
                    i as int,
                    out@,
                    self.verbosity,
                ),
            decreases expressions.len() - i,
        {
            let bytes = match self.write_expression(&expressions[i]) {
                Ok(bytes) => bytes,
                Err(e) => return Err(e),
            };
            put_bytes(&mut out, bytes.as_slice());
            i += 1;
        }
        Ok(out)
    }
}

/// The bytes of an instruction comment up to and without operand number
/// `count`.
pub open spec fn spec_comment_prefix(instruction: Instruction, count: int) -> Seq<u8>
    decreases count,
{
    if count <= 0 {
        encode_utf8("// asm: "@) + encode_utf8(instruction.op.spec_name())
    } else {
        spec_comment_prefix(instruction, count - 1) + spec_operand_bytes(
            instruction.args@[count - 1],
        )
    }
}

/// The name that stands for argument number `i` when nothing names it.
pub open spec fn spec_fallback_name(i: int) -> Seq<char> {
    "arg_"@ + spec_decimal(i as nat)
}

/// The name of argument number `i` of a method with the attributes
/// `attributes`: the text of the constant that the method-parameter table
/// gives for it, or the fallback name where the table, the entry or the text
/// is missing.
pub open spec fn spec_argument_name(attributes: TableView, pool: ConstantPoolView, i: int) -> Seq<
    char,
> {
    match table_get(attributes, "MethodParameters"@) {
        Some(AttributeValueView::MethodParameters(parameters)) => if 0 <= i < parameters.len() {
            match pool.try_get(parameters[i].name_index as usize) {
                Ok(ConstantView::Utf8 { value }) => value,
                _ => spec_fallback_name(i),
            }
        } else {
            spec_fallback_name(i)
        },
        _ => spec_fallback_name(i),
    }
}

/// The bytes of the arguments of `arguments` from `pos` on, after the bytes
/// `out`: each type and name separated by a space, and `, ` between two
/// arguments.
pub open spec fn spec_arguments_bytes(
    arguments: Seq<JVMTypeView>,
    pos: int,
    out: Seq<u8>,
    attributes: TableView,
    pool: ConstantPoolView,
) -> Seq<u8>
    decreases arguments.len() - pos,
{
    if pos < 0 || pos >= arguments.len() {
        out
    } else {
        let one = encode_utf8(spec_type_text(arguments[pos])) + encode_utf8(" "@) + encode_utf8(
            spec_argument_name(attributes, pool, pos),
        );
        let separator = if pos < arguments.len() - 1 {
            encode_utf8(", "@)
        } else {
            Seq::empty()
        };
        spec_arguments_bytes(arguments, pos + 1, out + one + separator, attributes, pool)
    }
}

/// The imports `imports` with those of the argument types from `pos` on
/// added in order.
pub open spec fn spec_arguments_imports(
    arguments: Seq<JVMTypeView>,
    pos: int,
    imports: Seq<ClassPathView>,
) -> Seq<ClassPathView>
    decreases arguments.len() - pos,
{
    if pos < 0 || pos >= arguments.len() {
        imports
    } else {
        spec_arguments_imports(
            arguments,
            pos + 1,
            spec_add_imports(imports, spec_type_imports(arguments[pos]), 0),
        )
    }
}

/// Whether `method` is a constructor.
pub open spec fn spec_is_constructor(method: MemberView) -> bool {
    method.name == "<init>"@
}

/// The bytes of a method up to its opening parenthesis: the note on a
/// synthetic method, the modifiers, and either the return type and the name
/// or, for a constructor, the name of the class.
pub open spec fn spec_method_head(class_name: ClassPathView, synthetic: bool, method: MemberView) -> Seq<
    u8,
> {
    let note = if synthetic {
        encode_utf8("// synthetic method\n\n"@)
    } else {
        Seq::empty()
    };
    let named = if spec_is_constructor(method) {
        encode_utf8(" "@) + encode_utf8(class_name.name) + encode_utf8("("@)
    } else {
        encode_utf8(" "@) + encode_utf8(spec_type_text(method.descriptor.value)) + encode_utf8(
            " "@,
        ) + encode_utf8(method.name) + encode_utf8("("@)
    };
    note + encode_utf8(spec_member_signature(method.access_flags)) + named
}

/// The imports of a method: those of its return type, unless it is a
/// constructor, then those of its argument types.
pub open spec fn spec_method_imports(method: MemberView) -> Seq<ClassPathView> {
    let first = if spec_is_constructor(method) {
        Seq::empty()
    } else {
        spec_add_imports(Seq::empty(), spec_type_imports(method.descriptor.value), 0)
    };
    spec_arguments_imports(method.descriptor.arguments, 0, first)
}

/// The bytes and imports of a method.
///
/// The method must have a code body that decodes, a constant pool must be
/// at hand, and every statement must have a rendering. A constructor without
/// arguments and without statements is left out when everything is written
/// out. Otherwise the method is its head, its arguments, and its statements
/// between braces.
pub open spec fn spec_write_method(
    verbosity: GeneratorVerbosity,
    pool: Option<ConstantPoolView>,
    class_name: ClassPathView,
    synthetic: bool,
    method: MemberView,
) -> Result<(Seq<u8>, Seq<ClassPathView>), GenerateError> {
    match table_get(method.attributes, "Code"@) {
        Some(AttributeValueView::Code(code)) => match pool {
            None => Err(GenerateError::NoConstantPool),
            Some(constants) => match spec_decode(code.code) {
                Err(e) => Err(GenerateError::Instruction(e)),
                Ok(instructions) => match spec_body_bytes(
                    spec_decompile(instructions, spec_is_constructor(method)),
                    0,
                    Seq::empty(),
                    verbosity,
                ) {
                    Err(e) => Err(e),
                    Ok(generated) => if verbosity == GeneratorVerbosity::All
                        && spec_is_constructor(method) && method.descriptor.arguments.len() == 0
                        && generated.len() == 0 {
                        Ok((Seq::empty(), Seq::empty()))
                    } else {
                        Ok(
                            (
                                spec_arguments_bytes(
                                    method.descriptor.arguments,
                                    0,
                                    spec_method_head(class_name, synthetic, method),
                                    method.attributes,
                                    constants,
                                ) + encode_utf8(") {\n"@) + generated + encode_utf8("}\n"@),
                                spec_method_imports(method),
                            ),
                        )
                    },
                },
            },
        },
        _ => Err(GenerateError::NoCode),
    }
}

/// The view of an optional pool.
pub open spec fn optional_pool_view(pool: Option<&ConstantPool>) -> Option<ConstantPoolView> {
    match pool {
        Some(p) => Some(p@),
        None => None,
    }
}

/// The bytes of the comment lines of `lines` from `pos` on, after the bytes
/// `out`.
pub open spec fn spec_comment_lines(lines: Seq<Seq<char>>, pos: int, out: Seq<u8>) -> Seq<u8>
    decreases lines.len() - pos,
{
    if pos < 0 || pos >= lines.len() {
        out
    } else {
        spec_comment_lines(
            lines,
            pos + 1,
            out + encode_utf8(" * "@) + encode_utf8(lines[pos]) + encode_utf8("\n"@),
        )
    }
}

/// The bytes of the header comment: nothing without a message, the lines of
/// the message in a block comment otherwise.
pub open spec fn spec_header_bytes(message: Option<Seq<char>>) -> Seq<u8> {
    match message {
        None => Seq::empty(),
        Some(text) => spec_comment_lines(spec_split(text, '\n'), 0, encode_utf8("/*\n"@))
            + encode_utf8(" */\n"@),
    }
}

/// The bytes of the package declaration: nothing for a class without a
/// package.
pub open spec fn spec_package_bytes(class_name: ClassPathView) -> Seq<u8> {
    if class_name.package_path().len() > 0 {
        encode_utf8("package "@) + encode_utf8(class_name.package_path()) + encode_utf8(
            ";\n\n"@,
        )
    } else {
        Seq::empty()
    }
}

/// The bytes of the names of `interfaces` from `pos` on, after the bytes
/// `out`, with `, ` between two names.
pub open spec fn spec_interface_names(interfaces: Seq<ClassPathView>, pos: int, out: Seq<u8>) -> Seq<
    u8,
>
    decreases interfaces.len() - pos,
{
    if pos < 0 || pos >= interfaces.len() {
        out
    } else {
        let separator = if pos != interfaces.len() - 1 {
            encode_utf8(", "@)
        } else {
            Seq::empty()
        };
        spec_interface_names(
            interfaces,
            pos + 1,
            out + encode_utf8(interfaces[pos].name) + separator,
        )
    }
}

/// Whether the class names a superclass other than `java.lang.Object`.
pub open spec fn spec_extends(class: ClassView) -> bool {
    class.super_name matches Some(parent) && !parent.is_object()
}

/// The first line of a class: modifiers, kind and name, the superclass
/// unless it is `java.lang.Object`, the interfaces, and the opening brace.
pub open spec fn spec_class_head(class: ClassView) -> Seq<u8> {
    let parent = if spec_extends(class) {
        encode_utf8(" extends "@) + encode_utf8(class.super_name->Some_0.name)
    } else {
        Seq::empty()
    };
    let declared = encode_utf8(spec_class_signature(class.access_flags)) + encode_utf8(" "@)
        + encode_utf8(class.class_name.name) + parent;
    let implemented = if class.interfaces.len() > 0 {
        spec_interface_names(class.interfaces, 0, declared + encode_utf8(" implements "@))
    } else {
        declared
    };
    implemented + encode_utf8(" {\n"@)
}

/// The imports of the first line of a class: the superclass unless it is
/// `java.lang.Object`, then the interfaces.
pub open spec fn spec_head_imports(class: ClassView) -> Seq<ClassPathView> {
    let parent = if spec_extends(class) {
        seq![class.super_name->Some_0]
    } else {
        Seq::empty()
    };
    spec_add_imports(parent, class.interfaces, 0)
}

/// The members of a class on their way into the text: the indented bytes,
/// the block level, and the imports so far.
pub struct Block {
    pub out: Seq<u8>,
    pub level: int,
    pub imports: Seq<ClassPathView>,
}

/// The bytes that open a block.
pub open spec fn spec_openers() -> Set<u8> {
    seq![123u8].to_set()
}

/// The bytes that close a block.
pub open spec fn spec_closers() -> Set<u8> {
    seq![125u8].to_set()
}

/// The block after `bytes` were written into it with `imports` added, or
/// the failure of a text too long for its blocks to be counted.
pub open spec fn spec_block_write(
    block: Block,
    bytes: Seq<u8>,
    imports: Seq<ClassPathView>,
    indent: IndentKind,
) -> Result<Block, GenerateError> {
    if block.level + bytes.len() > usize::MAX {
        Err(GenerateError::TooLong)
    } else {
        let written = spec_write_from(
            bytes,
            0,
            block.out,
            block.level,
            indent,
            spec_openers(),
            spec_closers(),
        );
        Ok(
            Block {
                out: written.0,
                level: written.1,
                imports: spec_add_imports(block.imports, imports, 0),
            },
        )
    }
}

/// The block after the fields of `fields` from `pos` on were written into
/// it.
pub open spec fn spec_block_fields(
    fields: Seq<MemberView>,
    pos: int,
    block: Block,
    indent: IndentKind,
) -> Result<Block, GenerateError>
    decreases fields.len() - pos,
{
    if pos < 0 || pos >= fields.len() {
        Ok(block)
    } else {
        match spec_block_write(
            block,
            spec_field_bytes(fields[pos]),
            spec_type_imports(fields[pos].descriptor.value),
            indent,
        ) {
            Err(e) => Err(e),
            Ok(next) => spec_block_fields(fields, pos + 1, next, indent),
        }
    }
}

/// The block after the methods of `methods` from `pos` on were written into
/// it.
pub open spec fn spec_block_methods(
    methods: Seq<MemberView>,
    pos: int,
    block: Block,
    indent: IndentKind,
    verbosity: GeneratorVerbosity,
    class: ClassView,
) -> Result<Block, GenerateError>
    decreases methods.len() - pos,
{
    if pos < 0 || pos >= methods.len() {
        Ok(block)
    } else {
        match spec_write_method(
            verbosity,
            Some(class.constant_pool),
            class.class_name,
            false,
            methods[pos],
        ) {
            Err(e) => Err(e),
            Ok(method) => match spec_block_write(block, method.0, method.1, indent) {
                Err(e) => Err(e),
                Ok(next) => spec_block_methods(methods, pos + 1, next, indent, verbosity, class),
            },
        }
    }
}

/// The bytes of the import lines of `imports` from `pos` on, after the
/// bytes `out`.
pub open spec fn spec_import_lines(imports: Seq<ClassPathView>, pos: int, out: Seq<u8>) -> Seq<u8>
    decreases imports.len() - pos,
{
    if pos < 0 || pos >= imports.len() {
        out
    } else {
        spec_import_lines(
            imports,
            pos + 1,
            out + encode_utf8("import "@) + encode_utf8(imports[pos].full_path()) + encode_utf8(
                ";\n"@,
            ),
        )
    }
}

/// The bytes of the source file of a class.
///
/// A nested class has no rendering. Otherwise the file is the header
/// comment, the package declaration, one import line for each class that
/// the declaration and the members call for, in the order in which they
/// were first met, an empty line, and the class: its first line, its fields
/// and methods indented by block, and the closing brace.
pub open spec fn spec_write_class(
    verbosity: GeneratorVerbosity,
    header: Option<Seq<char>>,
    indent: IndentKind,
    class: ClassView,
) -> Result<Seq<u8>, GenerateError> {
    if class.class_name.outer_classes.len() > 0 {
        Err(GenerateError::NestedClass)
    } else {
        let start = Block { out: Seq::empty(), level: 1, imports: spec_head_imports(class) };
        match spec_block_fields(class.fields, 0, start, indent) {
            Err(e) => Err(e),
            Ok(fields) => match spec_block_methods(
                class.methods,
                0,
                fields,
                indent,
                verbosity,
                class,
            ) {
                Err(e) => Err(e),
                Ok(members) => Ok(
                    spec_import_lines(
                        members.imports,
                        0,
                        spec_header_bytes(header) + spec_package_bytes(class.class_name),
                    ) + encode_utf8("\n"@) + spec_class_head(class) + members.out + encode_utf8(
                        "}\n"@,
                    ),
                ),
            },
        }
    }
}

/// The view of an optional header message.
pub open spec fn message_view(message: Option<String>) -> Option<Seq<char>> {
    match message {
        Some(text) => Some(text@),
        None => None,
    }
}

impl JavaBackend {
    /// The name of argument number `i` of `method`.
    fn argument_name(method: &Member, pool: &ConstantPool, i: usize) -> (r: String)
        ensures
            r@ == spec_argument_name(method@.attributes, pool@, i as int),
    {
        let named: Option<String> = match method.attributes.get("MethodParameters") {
            Some(AttributeValue::MethodParameters(data)) => {
                if i < data.parameters.len() {
                    match pool.try_get(data.parameters[i].name_index as usize) {
                        Ok(Constant::Utf8 { value }) => Some(value.clone()),
                        _ => None,
                    }
                } else {
                    None
                }
            },
            _ => None,
        };
        match named {
            Some(name) => name,
            None => {
                let mut name = "arg_".to_owned();
                let number = decimal(i);
                name.append(number.as_str());
                name
            },
        }
    }

    /// The bytes of `method` and the imports it calls for, with names
    /// resolved through `pool`.
    pub fn write_method_in(
        &self,
        pool: Option<&ConstantPool>,
        ctx: &ClassContext,
        method: &Member,
    ) -> (r: Result<(Vec<u8>, JavaScopeRequirements), GenerateError>)
        ensures
            match r {
                Ok(written) => spec_write_method(
                    self.verbosity,
                    optional_pool_view(pool),
                    ctx.class_name@,
                    ctx.synthetic,
                    method@,
                ) == Ok::<(Seq<u8>, Seq<ClassPathView>), GenerateError>(
                    (written.0@, written.1@.imports),
                ) && written.1@.language_level == JavaVersion::Java20,
                Err(e) => spec_write_method(
                    self.verbosity,
                    optional_pool_view(pool),
                    ctx.class_name@,
                    ctx.synthetic,
                    method@,
                ) == Err::<(Seq<u8>, Seq<ClassPathView>), GenerateError>(e),
            },
    {
        let code: &CodeData = match method.attributes.get("Code") {
            Some(AttributeValue::Code(code)) => code,
            _ => return Err(GenerateError::NoCode),
        };
        let constant_pool = match pool {
            Some(p) => p,
            None => return Err(GenerateError::NoConstantPool),
        };
        let expressions = match decompile(constant_pool, method, code) {
            Ok(expressions) => expressions,
            Err(e) => return Err(GenerateError::Instruction(e)),
        };
        let generated = match self.write_body(&expressions) {
            Ok(bytes) => bytes,
            Err(e) => return Err(e),
        };
        let mut req = JavaScopeRequirements::default();
        let constructor = method.is_constructor();
        if self.verbosity == GeneratorVerbosity::All && constructor
            && method.descriptor.arguments.len() == 0 && generated.len() == 0 {
            return Ok((Vec::new(), req));
        }
        let mut out: Vec<u8> = Vec::new();
        if ctx.synthetic {
            put(&mut out, "// synthetic method\n\n");
        }
        let signature = method_signature(method.access_flags);
        put(&mut out, signature.as_str());
        if !constructor {
            let (spelled, method_req) = self.write_type(&method.descriptor.value);
            req.add_import(method_req.imports);
            put(&mut out, " ");
            put(&mut out, spelled.as_str());
            put(&mut out, " ");
            put(&mut out, method.name.as_str());
            put(&mut out, "(");
        } else {
            put(&mut out, " ");
            put(&mut out, ctx.class_name.name.as_str());
            put(&mut out, "(");
        }
        assert(out@ =~= spec_method_head(ctx.class_name@, ctx.synthetic, method@));
        let ghost arguments = method@.descriptor.arguments;
        let ghost head = out@;
        let ghost first = paths_view(req.imports@);
        let count = method.descriptor.arguments.len();
        let mut i: usize = 0;
        while i < count
            invariant
                i <= count,
                count == method.descriptor.arguments@.len(),
                arguments == types_view(method.descriptor.arguments@),
                arguments == method@.descriptor.arguments,
                spec_arguments_bytes(arguments, 0, head, method@.attributes, constant_pool@)
                    == spec_arguments_bytes(
                    arguments,
                    i as int,
                    out@,
                    method@.attributes,
                    constant_pool@,
                ),
                spec_arguments_imports(arguments, 0, first) == spec_arguments_imports(
                    arguments,
                    i as int,
                    paths_view(req.imports@),
                ),
                req.language_level == JavaVersion::Java20,
            decreases count - i,
        {
            let ghost before = out@;
            let (arg_type, tr) = self.write_type(&method.descriptor.arguments[i]);
            req.add_import(tr.imports);
            let arg_name = JavaBackend::argument_name(method, constant_pool, i);
            put(&mut out, arg_type.as_str());
            put(&mut out, " ");
            put(&mut out, arg_name.as_str());
            if i < count - 1 {
                put(&mut out, ", ");
            }
            proof {
                let one = encode_utf8(spec_type_text(arguments[i as int])) + encode_utf8(" "@)
                    + encode_utf8(
                    spec_argument_name(method@.attributes, constant_pool@, i as int),
                );
                let separator = if i < arguments.len() - 1 {
                    encode_utf8(", "@)
                } else {
                    Seq::empty()
                };
                assert(out@ =~= before + one + separator);
            }
            i += 1;
        }
        put(&mut out, ") {\n");
        put_bytes(&mut out, generated.as_slice());
        put(&mut out, "}\n");
        Ok((out, req))
    }

    /// The bytes of `method` and the imports it calls for, with names
    /// resolved through the constant pool of `lang`.
    pub fn write_method(&self, lang: &JavaContext, ctx: &ClassContext, method: &Member) -> (r:
        Result<(Vec<u8>, JavaScopeRequirements), GenerateError>)
        ensures
            match r {
                Ok(written) => spec_write_method(
                    self.verbosity,
                    match lang.constant_pool {
                        Some(p) => Some(p@),
                        None => None,
                    },
                    ctx.class_name@,
                    ctx.synthetic,
                    method@,
                ) == Ok::<(Seq<u8>, Seq<ClassPathView>), GenerateError>(
                    (written.0@, written.1@.imports),
                ) && written.1@.language_level == JavaVersion::Java20,
                Err(e) => spec_write_method(
                    self.verbosity,
                    match lang.constant_pool {
                        Some(p) => Some(p@),
                        None => None,
                    },
                    ctx.class_name@,
                    ctx.synthetic,
                    method@,
                ) == Err::<(Seq<u8>, Seq<ClassPathView>), GenerateError>(e),
            },
    {
        match &lang.constant_pool {
            Some(pool) => self.write_method_in(Some(pool), ctx, method),
            None => self.write_method_in(None, ctx, method),
        }
    }

    /// The bytes of the header comment.
    fn write_header(message: &Option<String>) -> (out: Vec<u8>)
        ensures
            out@ == spec_header_bytes(message_view(*message)),
    {
        let mut out: Vec<u8> = Vec::new();
        match message {
            None => {},
            Some(text) => {
                put(&mut out, "/*\n");
                let lines = split(text.as_str(), '\n');
                let ghost start = out@;
                let mut i: usize = 0;
                while i < lines.len()
                    invariant
                        i <= lines.len(),
                        spec_comment_lines(strings_view(lines@), 0, start) == spec_comment_lines(
                            strings_view(lines@),
                            i as int,
                            out@,
                        ),
                    decreases lines.len() - i,
                {
                    put(&mut out, " * ");
                    put(&mut out, lines[i].as_str());
                    put(&mut out, "\n");
                    i += 1;
                }
                put(&mut out, " */\n");
            },
        }
        out
    }

    /// The bytes of the first line of `class`, and its imports.
    fn write_class_head(class: &Class) -> (r: (Vec<u8>, JavaScopeRequirements))
        ensures
            r.0@ == spec_class_head(class@),
            r.1@ == spec_requirements(spec_head_imports(class@)),
    {
        let mut req = JavaScopeRequirements::default();
        let mut out: Vec<u8> = Vec::new();
        let signature = class_signature(class.access_flags);
        put(&mut out, signature.as_str());
        put(&mut out, " ");
        put(&mut out, class.class_name.name.as_str());
        match &class.super_name {
            Some(super_name) => {
                if !super_name.is_object() {
                    put(&mut out, " extends ");
                    put(&mut out, super_name.name.as_str());
                    req.insert(super_name.clone());
                }
            },
            None => {},
        }
        let ghost parent = paths_view(req.imports@);
        let ghost interfaces = class@.interfaces;
        let ghost plain = out@;
        proof {
            let extension = if spec_extends(class@) {
                encode_utf8(" extends "@) + encode_utf8(class@.super_name->Some_0.name)
            } else {
                Seq::empty()
            };
            assert(plain =~= encode_utf8(spec_class_signature(class@.access_flags)) + encode_utf8(
                " "@,
            ) + encode_utf8(class@.class_name.name) + extension);
            assert(parent =~= if spec_extends(class@) {
                seq![class@.super_name->Some_0]
            } else {
                Seq::empty()
            });
        }
        let count = class.interfaces.len();
        if count > 0 {
            put(&mut out, " implements ");
        }
        let ghost declared = out@;
        let mut i: usize = 0;
        while i < count
            invariant
                i <= count,
                count == class.interfaces@.len(),
                interfaces == paths_view(class.interfaces@),
                spec_interface_names(interfaces, 0, declared) == spec_interface_names(
                    interfaces,
                    i as int,
                    out@,
                ),
                spec_add_imports(parent, interfaces, 0) == spec_add_imports(
                    paths_view(req.imports@),
                    interfaces,
                    i as int,
                ),
                req.language_level == JavaVersion::Java20,
            decreases count - i,
        {
            req.insert(class.interfaces[i].clone());
            put(&mut out, class.interfaces[i].name.as_str());
            if i != count - 1 {
                put(&mut out, ", ");
            }
            i += 1;
        }
        put(&mut out, " {\n");
        (out, req)
    }

    /// Writes `bytes` into the block and adds `imports`, unless the text is
    /// too long for its blocks to be counted.
    fn block_write(
        indented: &mut Indented,
        req: &mut JavaScopeRequirements,
        bytes: Vec<u8>,
        imports: JavaScopeRequirements,
    ) -> (r: Result<(), GenerateError>)
        requires
            old(indented).enter_block_on@ == spec_openers(),
            old(indented).exit_block_on@ == spec_closers(),
        ensures
            final(indented).enter_block_on@ == spec_openers(),
            final(indented).exit_block_on@ == spec_closers(),
            final(indented).indent == old(indented).indent,
            final(req).language_level == old(req).language_level,
            match r {
                Ok(_) => spec_block_write(
                    Block {
                        out: old(indented).inner@,
                        level: old(indented).level as int,
                        imports: paths_view(old(req).imports@),
                    },
                    bytes@,
                    paths_view(imports.imports@),
                    old(indented).indent,
                ) == Ok::<Block, GenerateError>(
                    Block {
                        out: final(indented).inner@,
                        level: final(indented).level as int,
                        imports: paths_view(final(req).imports@),
                    },
                ),
                Err(e) => spec_block_write(
                    Block {
                        out: old(indented).inner@,
                        level: old(indented).level as int,
                        imports: paths_view(old(req).imports@),
                    },
                    bytes@,
                    paths_view(imports.imports@),
                    old(indented).indent,
                ) == Err::<Block, GenerateError>(e),
            },
    {
        if bytes.len() > usize::MAX - indented.level {
            return Err(GenerateError::TooLong);
        }
        indented.write(bytes.as_slice());
        req.merge(imports);
        Ok(())
    }

    /// The bytes of the source file of `class`. The requirements that come
    /// back hold no imports: the file declares them itself.
    pub fn write_class(&self, lang: &JavaContext, class: &Class) -> (r: Result<
        (Vec<u8>, JavaScopeRequirements),
        GenerateError,
    >)
        ensures
            match r {
                Ok(written) => spec_write_class(
                    self.verbosity,
                    message_view(lang.header_message),
                    lang.indentation,
                    class@,
                ) == Ok::<Seq<u8>, GenerateError>(written.0@) && written.1@ == spec_requirements(
                    Seq::empty(),
                ),
                Err(e) => spec_write_class(
                    self.verbosity,
                    message_view(lang.header_message),
                    lang.indentation,
                    class@,
                ) == Err::<Seq<u8>, GenerateError>(e),
            },
    {
        if class.class_name.outer_classes.len() > 0 {
            return Err(GenerateError::NestedClass);
        }
        let mut out = JavaBackend::write_header(&lang.header_message);
        let package_path = class.class_name.package_path();
        if !package_path.as_str().is_empty() {
            put(&mut out, "package ");
            put(&mut out, package_path.as_str());
            put(&mut out, ";\n\n");
        }
        assert(out@ =~= spec_header_bytes(message_view(lang.header_message)) + spec_package_bytes(
            class@.class_name,
        ));
        let (head, mut req) = JavaBackend::write_class_head(class);
        let opener: Vec<u8> = vec![123u8];
        let closer: Vec<u8> = vec![125u8];
        assert(opener@ =~= seq![123u8]);
        assert(closer@ =~= seq![125u8]);
        let mut class_indent = Indented::new(
            Vec::new(),
            lang.indentation,
            1,
            opener.as_slice(),
            closer.as_slice(),
        );
        let ghost start = Block {
            out: Seq::empty(),
            level: 1,
            imports: spec_head_imports(class@),
        };
        let ghost fields = class@.fields;
        let mut i: usize = 0;
        while i < class.fields.len()
            invariant
                i <= class.fields@.len(),
                fields == members_view(class.fields@),
                class_indent.indent == lang.indentation,
                class_indent.enter_block_on@ == spec_openers(),
                class_indent.exit_block_on@ == spec_closers(),
                req.language_level == JavaVersion::Java20,
                spec_block_fields(fields, 0, start, lang.indentation) == spec_block_fields(
                    fields,
                    i as int,
                    Block {
                        out: class_indent.inner@,
                        level: class_indent.level as int,
                        imports: paths_view(req.imports@),
                    },
                    lang.indentation,
                ),
                class@.class_name.outer_classes.len() == 0,
                start == (Block {
                    out: Seq::empty(),
                    level: 1,
                    imports: spec_head_imports(class@),
                }),
            decreases class.fields.len() - i,
        {
            let (bytes, field_requirements) = self.write_field(&class.fields[i]);
            match JavaBackend::block_write(&mut class_indent, &mut req, bytes, field_requirements) {
                Ok(_) => {},
                Err(e) => return Err(e),
            }
            i += 1;
        }
        let ghost after_fields = Block {
            out: class_indent.inner@,
            level: class_indent.level as int,
            imports: paths_view(req.imports@),
        };
        let method_ctx = ClassContext { class_name: class.class_name.clone(), synthetic: false };
        let ghost methods = class@.methods;
        let mut j: usize = 0;
        while j < class.methods.len()
            invariant
                j <= class.methods@.len(),
                methods == members_view(class.methods@),
                method_ctx.class_name@ == class@.class_name,
                !method_ctx.synthetic,
                class_indent.indent == lang.indentation,
                class_indent.enter_block_on@ == spec_openers(),
                class_indent.exit_block_on@ == spec_closers(),
                req.language_level == JavaVersion::Java20,
                spec_block_methods(
                    methods,
                    0,
                    after_fields,
                    lang.indentation,
                    self.verbosity,
                    class@,
                ) == spec_block_methods(
                    methods,
                    j as int,
                    Block {
                        out: class_indent.inner@,
                        level: class_indent.level as int,
                        imports: paths_view(req.imports@),
                    },
                    lang.indentation,
                    self.verbosity,
                    class@,
                ),
                class@.class_name.outer_classes.len() == 0,
                start == (Block {
                    out: Seq::empty(),
                    level: 1,
                    imports: spec_head_imports(class@),
                }),
                spec_block_fields(class@.fields, 0, start, lang.indentation) == Ok::<
                    Block,
                    GenerateError,
                >(after_fields),
            decreases class.methods.len() - j,
        {
            let (bytes, method_requirements) = match self.write_method_in(
                Some(&class.constant_pool),
                &method_ctx,
                &class.methods[j],
            ) {
                Ok(written) => written,
                Err(e) => return Err(e),
            };
            match JavaBackend::block_write(&mut class_indent, &mut req, bytes, method_requirements) {
                Ok(_) => {},
                Err(e) => return Err(e),
            }
            j += 1;
        }
        let body = class_indent.into_inner();
        let ghost imports = paths_view(req.imports@);
        let ghost before_imports = out@;
        let mut k: usize = 0;
        while k < req.imports.len()
            invariant
                k <= req.imports@.len(),
                imports == paths_view(req.imports@),
                req.language_level == JavaVersion::Java20,
                spec_import_lines(imports, 0, before_imports) == spec_import_lines(
                    imports,
                    k as int,
                    out@,
                ),
            decreases req.imports.len() - k,
        {
            let path = req.imports[k].full_path();
            put(&mut out, "import ");
            put(&mut out, path.as_str());
            put(&mut out, ";\n");
            k += 1;
        }
        put(&mut out, "\n");
        put_bytes(&mut out, head.as_slice());
        put_bytes(&mut out, body.as_slice());
        put(&mut out, "}\n");
        let language_level = req.language_level;
        let left = JavaScopeRequirements { imports: Vec::new(), language_level };
        assert(left@.imports =~= Seq::<ClassPathView>::empty());
        Ok((out, left))
    }

    /// The source text of `class`: the bytes of its source file as text.
    pub fn generate(&self, lang: &JavaContext, class: &Class) -> (r: Result<
        (String, JavaScopeRequirements),
        GenerateError,
    >)
        ensures
            match r {
                Ok(written) => spec_write_class(
                    self.verbosity,
                    message_view(lang.header_message),
                    lang.indentation,
                    class@,
                ) matches Ok(bytes) && valid_utf8(bytes) && written.0@ == decode_utf8(bytes)
                    && written.1@ == spec_requirements(Seq::empty()),
                Err(e) => match spec_write_class(
                    self.verbosity,
                    message_view(lang.header_message),
                    lang.indentation,
                    class@,
                ) {
                    Ok(bytes) => !valid_utf8(bytes) && e == GenerateError::InvalidText,
                    Err(f) => e == f,
                },
            },
    {
        let (bytes, req) = match self.write_class(lang, class) {
            Ok(written) => written,
            Err(e) => return Err(e),
        };
        match string_from_utf8(bytes) {
            Some(text) => Ok((text, req)),
            None => Err(GenerateError::InvalidText),
        }
    }
}

} // verus!
