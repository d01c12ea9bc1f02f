//! Attribute codec: the named, length-prefixed records attached to classes,
//! fields, methods and code bodies.

use crate::constant::{Constant, ConstantPool, ConstantPoolView, ConstantView};
use crate::cursor::{
    be_u16_at, fits, ok_view, spec_read_bytes, spec_read_u16, spec_read_u32, spec_read_u8,
    spec_rest, ByteCursor, ReadError,
};
use crate::error::AttributeError;
use crate::text::str_eq;
use vstd::prelude::*;
use vstd::slice::slice_to_vec;

verus! {

/// A record of fixed width made of big-endian fields, as the tables inside
/// attributes hold them.
pub trait FlatEntry: Sized {
    /// The number of bytes of one record.
    spec fn width() -> int;

    /// The record whose bytes start at `pos` in `s`.
    spec fn at(s: Seq<u8>, pos: int) -> Self;

    /// A record has at least one byte.
    proof fn width_is_positive()
        ensures
            Self::width() > 0,
    ;

    /// Decodes one record from the cursor.
    fn read_from(r: &mut ByteCursor) -> (out: Result<Self, ReadError>)
        ensures
            final(r).bytes() == old(r).bytes(),
            fits(old(r).bytes(), old(r).position(), Self::width()) ==> {
                &&& out == Ok::<Self, ReadError>(Self::at(old(r).bytes(), old(r).position()))
                &&& final(r).position() == old(r).position() + Self::width()
            },
            !fits(old(r).bytes(), old(r).position(), Self::width()) ==> {
                &&& out == Err::<Self, ReadError>(ReadError::UnexpectedEof)
                &&& final(r).position() == old(r).bytes().len()
            },
    ;
}

/// Outcome and next position of decoding one record at `pos`.
pub open spec fn spec_read_entry<E: FlatEntry>(s: Seq<u8>, pos: int) -> (
    Result<E, ReadError>,
    int,
) {
    if fits(s, pos, E::width()) {
        (Ok(E::at(s, pos)), pos + E::width())
    } else {
        (Err(ReadError::UnexpectedEof), s.len() as int)
    }
}

/// Outcome and next position of decoding `count` consecutive records at
/// `pos`, after the records `done`.
pub open spec fn spec_read_entries<E: FlatEntry>(s: Seq<u8>, pos: int, count: nat, done: Seq<E>) -> (
    Result<Seq<E>, ReadError>,
    int,
)
    decreases count,
{
    if count == 0 {
        (Ok(done), pos)
    } else {
        match spec_read_entry::<E>(s, pos) {
            (Err(e), p) => (Err(e), p),
            (Ok(entry), p) => spec_read_entries(s, p, (count - 1) as nat, done.push(entry)),
        }
    }
}

/// The records of a table in closed form: record number `i` of `count`
/// records that start at `pos`.
pub open spec fn spec_table<E: FlatEntry>(s: Seq<u8>, pos: int, count: nat) -> Seq<E> {
    Seq::new(count, |i: int| E::at(s, pos + i * E::width()))
}

/// A table decodes exactly when all its bytes are there: `count` records at
/// `pos` are the records at `pos`, `pos + width`, `pos + 2 * width` and so
/// on, and the next position is right after them; where the input is
/// shorter, decoding fails at the end of the input.
pub proof fn lemma_table_closed_form<E: FlatEntry>(s: Seq<u8>, pos: int, count: nat, done: Seq<E>)
    requires
        0 <= pos <= s.len(),
    ensures
        fits(s, pos, count * E::width()) ==> spec_read_entries::<E>(s, pos, count, done) == (
            Ok::<Seq<E>, ReadError>(done + spec_table::<E>(s, pos, count)),
            pos + count * E::width(),
        ),
        !fits(s, pos, count * E::width()) ==> spec_read_entries::<E>(s, pos, count, done) == (
            Err::<Seq<E>, ReadError>(ReadError::UnexpectedEof),
            s.len() as int,
        ),
    decreases count,
{
    E::width_is_positive();
    let width = E::width();
    if count > 0 {
        let rest = (count - 1) as nat;
        assert(count * width == rest * width + width) by (nonlinear_arith)
            requires
                rest == count - 1,
        ;
        assert(rest * width >= 0) by (nonlinear_arith)
            requires
                rest >= 0,
                width > 0,
        ;
        if fits(s, pos, width) {
            lemma_table_closed_form::<E>(s, pos + width, rest, done.push(E::at(s, pos)));
            if fits(s, pos, count * width) {
                let tail = spec_table::<E>(s, pos + width, rest);
                let all = spec_table::<E>(s, pos, count);
                assert forall|i: int| 0 <= i < rest implies tail[i] == all[i + 1] by {
                    assert(pos + width + i * width == pos + (i + 1) * width) by (nonlinear_arith);
                }
                assert(all[0] == E::at(s, pos));
                assert(done.push(E::at(s, pos)) + tail =~= done + all);
            }
        }
    }
}

/// Decodes `count` consecutive records from the cursor.
pub fn read_entries<E: FlatEntry>(r: &mut ByteCursor, count: usize) -> (out: Result<
    Vec<E>,
    ReadError,
>)
    ensures
        final(r).bytes() == old(r).bytes(),
        (ok_view(out), final(r).position()) == spec_read_entries::<E>(
            old(r).bytes(),
            old(r).position(),
            count as nat,
            Seq::empty(),
        ),
{
    let mut table: Vec<E> = Vec::new();
    let mut i: usize = 0;
    while i < count
        invariant
            i <= count,
            r.bytes() == old(r).bytes(),
            spec_read_entries::<E>(old(r).bytes(), old(r).position(), count as nat, Seq::empty())
                == spec_read_entries::<E>(r.bytes(), r.position(), (count - i) as nat, table@),
        decreases count - i,
    {
        let entry = match E::read_from(r) {
            Ok(entry) => entry,
            Err(e) => return Err(e),
        };
        table.push(entry);
        i += 1;
    }
    Ok(table)
}

/// One handler of a code body: the covered program-counter range, the
/// handler's program counter, and the constant index of the caught type (0
/// for a handler that catches everything).
#[derive(Debug, Clone, Copy, PartialEq, Eq, Structural)]
pub struct ExceptionTableEntry {
    pub start_pc: u16,
    pub end_pc: u16,
    pub handler_pc: u16,
    pub catch_type: u16,
}

impl FlatEntry for ExceptionTableEntry {
    open spec fn width() -> int {
        8
    }

    proof fn width_is_positive() {
    }

    open spec fn at(s: Seq<u8>, pos: int) -> Self {
        ExceptionTableEntry {
            start_pc: be_u16_at(s, pos),
            end_pc: be_u16_at(s, pos + 2),
            handler_pc: be_u16_at(s, pos + 4),
            catch_type: be_u16_at(s, pos + 6),
        }
    }

    fn read_from(r: &mut ByteCursor) -> (out: Result<Self, ReadError>) {
        let start_pc = match r.read_u16() {
            Ok(v) => v,
            Err(e) => return Err(e),
        };
        let end_pc = match r.read_u16() {
            Ok(v) => v,
            Err(e) => return Err(e),
        };
        let handler_pc = match r.read_u16() {
            Ok(v) => v,
            Err(e) => return Err(e),
        };
        let catch_type = match r.read_u16() {
            Ok(v) => v,
            Err(e) => return Err(e),
        };
        Ok(ExceptionTableEntry { start_pc, end_pc, handler_pc, catch_type })
    }
}

/// The source line that starts at a program counter.
#[derive(Debug, Clone, Copy, PartialEq, Eq, Structural)]
pub struct LineNumber {
    pub start_pc: u16,
    pub line_number: u16,
}

impl FlatEntry for LineNumber {
    open spec fn width() -> int {
        4
    }

    proof fn width_is_positive() {
    }

    open spec fn at(s: Seq<u8>, pos: int) -> Self {
        LineNumber { start_pc: be_u16_at(s, pos), line_number: be_u16_at(s, pos + 2) }
    }

    fn read_from(r: &mut ByteCursor) -> (out: Result<Self, ReadError>) {
        let start_pc = match r.read_u16() {
            Ok(v) => v,
            Err(e) => return Err(e),
        };
        let line_number = match r.read_u16() {
            Ok(v) => v,
            Err(e) => return Err(e),
        };
        Ok(LineNumber { start_pc, line_number })
    }
}

/// One entry of the inner-classes table.
#[derive(Debug, Clone, Copy, PartialEq, Eq, Structural)]
pub struct InnerClass {
    pub inner_class_info_index: u16,
    pub outer_class_info_index: u16,
    pub inner_name_index: u16,
    pub inner_class_access_flags: u16,
}

impl FlatEntry for InnerClass {
    open spec fn width() -> int {
        8
    }

    proof fn width_is_positive() {
    }

    open spec fn at(s: Seq<u8>, pos: int) -> Self {
        InnerClass {
            inner_class_info_index: be_u16_at(s, pos),
            outer_class_info_index: be_u16_at(s, pos + 2),
            inner_name_index: be_u16_at(s, pos + 4),
            inner_class_access_flags: be_u16_at(s, pos + 6),
        }
    }

    fn read_from(r: &mut ByteCursor) -> (out: Result<Self, ReadError>) {
        let inner_class_info_index = match r.read_u16() {
            Ok(v) => v,
            Err(e) => return Err(e),
        };
        let outer_class_info_index = match r.read_u16() {
            Ok(v) => v,
            Err(e) => return Err(e),
        };
        let inner_name_index = match r.read_u16() {
            Ok(v) => v,
            Err(e) => return Err(e),
        };
        let inner_class_access_flags = match r.read_u16() {
            Ok(v) => v,
            Err(e) => return Err(e),
        };
        Ok(
            InnerClass {
                inner_class_info_index,
                outer_class_info_index,
                inner_name_index,
                inner_class_access_flags,
            },
        )
    }
}

/// One local variable of a code body, with its descriptor.
#[derive(Debug, Clone, Copy, PartialEq, Eq, Structural)]
pub struct LocalVariable {
    pub start_pc: u16,
    pub length: u16,
    pub name_index: u16,
    pub descriptor_index: u16,
    pub index: u16,
}

impl FlatEntry for LocalVariable {
    open spec fn width() -> int {
        10
    }

    proof fn width_is_positive() {
    }

    open spec fn at(s: Seq<u8>, pos: int) -> Self {
        LocalVariable {
            start_pc: be_u16_at(s, pos),
            length: be_u16_at(s, pos + 2),
            name_index: be_u16_at(s, pos + 4),
            descriptor_index: be_u16_at(s, pos + 6),
            index: be_u16_at(s, pos + 8),
        }
    }

    fn read_from(r: &mut ByteCursor) -> (out: Result<Self, ReadError>) {
        let start_pc = match r.read_u16() {
            Ok(v) => v,
            Err(e) => return Err(e),
        };
        let length = match r.read_u16() {
            Ok(v) => v,
            Err(e) => return Err(e),
        };
        let name_index = match r.read_u16() {
            Ok(v) => v,
            Err(e) => return Err(e),
        };
        let descriptor_index = match r.read_u16() {
            Ok(v) => v,
            Err(e) => return Err(e),
        };
        let index = match r.read_u16() {
            Ok(v) => v,
            Err(e) => return Err(e),
        };
        Ok(LocalVariable { start_pc, length, name_index, descriptor_index, index })
    }
}

/// One local variable of a code body, with its generic signature.
#[derive(Debug, Clone, Copy, PartialEq, Eq, Structural)]
pub struct LocalVariableType {
    pub start_pc: u16,
    pub length: u16,
    pub name_index: u16,
    pub signature_index: u16,
    pub index: u16,
}

impl FlatEntry for LocalVariableType {
    open spec fn width() -> int {
        10
    }

    proof fn width_is_positive() {
    }

    open spec fn at(s: Seq<u8>, pos: int) -> Self {
        LocalVariableType {
            start_pc: be_u16_at(s, pos),
            length: be_u16_at(s, pos + 2),
            name_index: be_u16_at(s, pos + 4),
            signature_index: be_u16_at(s, pos + 6),
            index: be_u16_at(s, pos + 8),
        }
    }

    fn read_from(r: &mut ByteCursor) -> (out: Result<Self, ReadError>) {
        let start_pc = match r.read_u16() {
            Ok(v) => v,
            Err(e) => return Err(e),
        };
        let length = match r.read_u16() {
            Ok(v) => v,
            Err(e) => return Err(e),
        };
        let name_index = match r.read_u16() {
            Ok(v) => v,
            Err(e) => return Err(e),
        };
        let signature_index = match r.read_u16() {
            Ok(v) => v,
            Err(e) => return Err(e),
        };
        let index = match r.read_u16() {
            Ok(v) => v,
            Err(e) => return Err(e),
        };
        Ok(LocalVariableType { start_pc, length, name_index, signature_index, index })
    }
}

/// One formal parameter of a method: the constant index of its name and its
/// access flags.
#[derive(Debug, Clone, Copy, PartialEq, Eq, Structural)]
pub struct MethodParameter {
    pub name_index: u16,
    pub access_flags: u16,
}

impl FlatEntry for MethodParameter {
    open spec fn width() -> int {
        4
    }

    proof fn width_is_positive() {
    }

    open spec fn at(s: Seq<u8>, pos: int) -> Self {
        MethodParameter { name_index: be_u16_at(s, pos), access_flags: be_u16_at(s, pos + 2) }
    }

    fn read_from(r: &mut ByteCursor) -> (out: Result<Self, ReadError>) {
        let name_index = match r.read_u16() {
            Ok(v) => v,
            Err(e) => return Err(e),
        };
        let access_flags = match r.read_u16() {
            Ok(v) => v,
            Err(e) => return Err(e),
        };
        Ok(MethodParameter { name_index, access_flags })
    }
}

/// A constant-pool index stored as a big-endian `u16`.
impl FlatEntry for usize {
    open spec fn width() -> int {
        2
    }

    proof fn width_is_positive() {
    }

    open spec fn at(s: Seq<u8>, pos: int) -> Self {
        be_u16_at(s, pos) as usize
    }

    fn read_from(r: &mut ByteCursor) -> (out: Result<Self, ReadError>) {
        match r.read_u16() {
            Ok(v) => Ok(v as usize),
            Err(e) => Err(e),
        }
    }
}

/// An annotation, by the constant index of its type.
pub struct Annotation {
    pub type_index: u16,
}

/// The body of a method.
#[derive(Debug, PartialEq, Eq)]
pub struct CodeData {
    /// The maximum depth of the operand stack.
    pub max_stack: usize,
    /// The number of local-variable slots.
    pub max_locals: usize,
    /// The raw instruction bytes.
    pub code: Vec<u8>,
    /// The exception handlers, in order.
    pub exception_table: Vec<ExceptionTableEntry>,
    /// The attributes of the code body itself.
    pub attributes: AttributeTable,
}

/// The checked exceptions a method may throw, by constant index.
#[derive(Debug, Clone, PartialEq, Eq)]
pub struct ExceptionData {
    pub exceptions: Vec<usize>,
}

/// The inner-classes table of a class.
#[derive(Debug, Clone, PartialEq, Eq)]
pub struct InnerClassData {
    pub classes: Vec<InnerClass>,
}

/// The line-number table of a code body.
#[derive(Debug, Clone, PartialEq, Eq)]
pub struct LineNumberTable {
    pub table: Vec<LineNumber>,
}

/// The local-variable table of a code body.
#[derive(Debug, Clone, PartialEq, Eq)]
pub struct LocalVariableTable {
    pub table: Vec<LocalVariable>,
}

/// The default value of an annotation element, undecoded.
#[derive(Debug, Clone, PartialEq, Eq)]
pub struct AnnotationDefaultData {
    pub default: Vec<u8>,
}

/// The method that encloses a local or anonymous class.
#[derive(Debug, Clone, PartialEq, Eq)]
pub struct EnclosingMethodData {
    pub class_index: usize,
    pub method_index: usize,
}

/// The local-variable type table of a code body.
#[derive(Debug, Clone, PartialEq, Eq)]
pub struct LocalVariableTypeTable {
    pub table: Vec<LocalVariableType>,
}

/// The generic signature of a class, field or method.
#[derive(Debug, Clone, PartialEq, Eq)]
pub struct SignatureData {
    pub signature: String,
}

/// The formal parameters of a method.
#[derive(Debug, Clone, PartialEq, Eq)]
pub struct MethodParameterData {
    pub parameters: Vec<MethodParameter>,
}

/// The value of one attribute: one of the known shapes, or the raw bytes of
/// an attribute whose name is not known.
#[derive(Debug, PartialEq, Eq)]
pub enum AttributeValue {
    Unknown { name: String, data: Vec<u8> },
    Code(CodeData),
    ConstantValue(u16),
    Deprecated,
    Exceptions(ExceptionData),
    InnerClasses(InnerClassData),
    LineNumberTable(LineNumberTable),
    LocalVariableTable(LocalVariableTable),
    SourceFile(u16),
    Synthetic,
    AnnotationDefault(AnnotationDefaultData),
    EnclosingMethod(EnclosingMethodData),
    LocalVariableTypeTable(LocalVariableTypeTable),
    RuntimeVisibleAnnotations,
    RuntimeInvisibleAnnotations,
    RuntimeVisibleParameterAnnotations,
    RuntimeInvisibleParameterAnnotations,
    Signature(SignatureData),
    SourceDebugExtension,
    StackMapTable,
    BootstrapMethods,
    MethodParameters(MethodParameterData),
    RuntimeInvisibleTypeAnnotations,
    RuntimeVisibleTypeAnnotations,
    Module,
    ModuleMainClass,
    ModulePackages,
    NestHost,
    NestMembers,
}

/// The attributes of one class, member or code body, each under its name.
/// A name occurs once in a table that was filled by [`AttributeTable::insert`].
#[derive(Debug, PartialEq, Eq)]
pub struct AttributeTable {
    pub entries: Vec<(String, AttributeValue)>,
}

/// The mathematical value of a [`CodeData`].
pub struct CodeDataView {
    pub max_stack: usize,
    pub max_locals: usize,
    pub code: Seq<u8>,
    pub exception_table: Seq<ExceptionTableEntry>,
    pub attributes: Seq<(Seq<char>, AttributeValueView)>,
}

/// The mathematical value of an [`AttributeValue`].
pub enum AttributeValueView {
    Unknown { name: Seq<char>, data: Seq<u8> },
    Code(CodeDataView),
    ConstantValue(u16),
    Deprecated,
    Exceptions(Seq<usize>),
    InnerClasses(Seq<InnerClass>),
    LineNumberTable(Seq<LineNumber>),
    LocalVariableTable(Seq<LocalVariable>),
    SourceFile(u16),
    Synthetic,
    AnnotationDefault(Seq<u8>),
    EnclosingMethod { class_index: usize, method_index: usize },
    LocalVariableTypeTable(Seq<LocalVariableType>),
    RuntimeVisibleAnnotations,
    RuntimeInvisibleAnnotations,
    RuntimeVisibleParameterAnnotations,
    RuntimeInvisibleParameterAnnotations,
    Signature(Seq<char>),
    SourceDebugExtension,
    StackMapTable,
    BootstrapMethods,
    MethodParameters(Seq<MethodParameter>),
    RuntimeInvisibleTypeAnnotations,
    RuntimeVisibleTypeAnnotations,
    Module,
    ModuleMainClass,
    ModulePackages,
    NestHost,
    NestMembers,
}

/// The mathematical value of a list of named attributes.
pub type TableView = Seq<(Seq<char>, AttributeValueView)>;

/// The value of each named attribute of `entries`, in order.
pub open spec fn table_view(entries: Seq<(String, AttributeValue)>) -> TableView
    decreases entries,
{
    Seq::new(
        entries.len(),
        |i: int|
            if 0 <= i < entries.len() {
                (entries[i].0@, value_view(entries[i].1))
            } else {
                (Seq::empty(), AttributeValueView::Deprecated)
            },
    )
}

/// The value of the code body `code`.
pub open spec fn code_view(code: CodeData) -> CodeDataView
    decreases code,
{
    CodeDataView {
        max_stack: code.max_stack,
        max_locals: code.max_locals,
        code: code.code@,
        exception_table: code.exception_table@,
        attributes: table_view(code.attributes.entries@),
    }
}

/// The value of the attribute `value`.
pub open spec fn value_view(value: AttributeValue) -> AttributeValueView
    decreases value,
{
    match value {
        AttributeValue::Unknown { name, data } => AttributeValueView::Unknown {
            name: name@,
            data: data@,
        },
        AttributeValue::Code(code) => AttributeValueView::Code(code_view(code)),
        AttributeValue::ConstantValue(index) => AttributeValueView::ConstantValue(index),
        AttributeValue::Deprecated => AttributeValueView::Deprecated,
        AttributeValue::Exceptions(data) => AttributeValueView::Exceptions(data.exceptions@),
        AttributeValue::InnerClasses(data) => AttributeValueView::InnerClasses(data.classes@),
        AttributeValue::LineNumberTable(data) => AttributeValueView::LineNumberTable(data.table@),
        AttributeValue::LocalVariableTable(data) => AttributeValueView::LocalVariableTable(
            data.table@,
        ),
        AttributeValue::SourceFile(index) => AttributeValueView::SourceFile(index),
        AttributeValue::Synthetic => AttributeValueView::Synthetic,
        AttributeValue::AnnotationDefault(data) => AttributeValueView::AnnotationDefault(
            data.default@,
        ),
        AttributeValue::EnclosingMethod(data) => AttributeValueView::EnclosingMethod {
            class_index: data.class_index,
            method_index: data.method_index,
        },
        AttributeValue::LocalVariableTypeTable(data) => AttributeValueView::LocalVariableTypeTable(
            data.table@,
        ),
        AttributeValue::RuntimeVisibleAnnotations => AttributeValueView::RuntimeVisibleAnnotations,
        AttributeValue::RuntimeInvisibleAnnotations => AttributeValueView::RuntimeInvisibleAnnotations,
        AttributeValue::RuntimeVisibleParameterAnnotations => AttributeValueView::RuntimeVisibleParameterAnnotations,
        AttributeValue::RuntimeInvisibleParameterAnnotations => AttributeValueView::RuntimeInvisibleParameterAnnotations,
        AttributeValue::Signature(data) => AttributeValueView::Signature(data.signature@),
        AttributeValue::SourceDebugExtension => AttributeValueView::SourceDebugExtension,
        AttributeValue::StackMapTable => AttributeValueView::StackMapTable,
        AttributeValue::BootstrapMethods => AttributeValueView::BootstrapMethods,
        AttributeValue::MethodParameters(data) => AttributeValueView::MethodParameters(
            data.parameters@,
        ),
        AttributeValue::RuntimeInvisibleTypeAnnotations => AttributeValueView::RuntimeInvisibleTypeAnnotations,
        AttributeValue::RuntimeVisibleTypeAnnotations => AttributeValueView::RuntimeVisibleTypeAnnotations,
        AttributeValue::Module => AttributeValueView::Module,
        AttributeValue::ModuleMainClass => AttributeValueView::ModuleMainClass,
        AttributeValue::ModulePackages => AttributeValueView::ModulePackages,
        AttributeValue::NestHost => AttributeValueView::NestHost,
        AttributeValue::NestMembers => AttributeValueView::NestMembers,
    }
}

impl View for AttributeValue {
    type V = AttributeValueView;

    open spec fn view(&self) -> AttributeValueView {
        value_view(*self)
    }
}

impl View for CodeData {
    type V = CodeDataView;

    open spec fn view(&self) -> CodeDataView {
        code_view(*self)
    }
}

impl View for AttributeTable {
    type V = TableView;

    open spec fn view(&self) -> TableView {
        table_view(self.entries@)
    }
}

/// The index of the first attribute of `table` at or after `from` that is
/// named `name`.
pub open spec fn spec_first_match(table: TableView, name: Seq<char>, from: int) -> Option<int>
    decreases table.len() - from,
{
    if from < 0 || from >= table.len() {
        None
    } else if table[from].0 == name {
        Some(from)
    } else {
        spec_first_match(table, name, from + 1)
    }
}

/// The table after `value` was stored under `name`: it takes the place of
/// the attribute of that name if there is one, and is added at the end
/// otherwise.
pub open spec fn table_insert(table: TableView, name: Seq<char>, value: AttributeValueView) -> TableView {
    match spec_first_match(table, name, 0) {
        Some(i) => table.update(i, (name, value)),
        None => table.push((name, value)),
    }
}

/// The attribute of `table` that is named `name`.
pub open spec fn table_get(table: TableView, name: Seq<char>) -> Option<AttributeValueView> {
    match spec_first_match(table, name, 0) {
        Some(i) => Some(table[i].1),
        None => None,
    }
}

/// Whether no two attributes of `table` have the same name.
pub open spec fn table_unique(table: TableView) -> bool {
    forall|i: int, j: int| 0 <= i < j < table.len() ==> table[i].0 != table[j].0
}

/// What a scan for `name` from `from` finds: the first match, before which
/// no attribute from `from` on has that name.
pub proof fn lemma_first_match(table: TableView, name: Seq<char>, from: int)
    requires
        0 <= from,
    ensures
        match spec_first_match(table, name, from) {
            Some(i) => from <= i < table.len() && table[i].0 == name && forall|j: int|
                from <= j < i ==> table[j].0 != name,
            None => forall|j: int| from <= j < table.len() ==> table[j].0 != name,
        },
    decreases table.len() - from,
{
    if from < table.len() && table[from].0 != name {
        lemma_first_match(table, name, from + 1);
    }
}

/// Storing an attribute keeps the names of a table distinct, and the stored
/// value is the one found under its name afterwards.
pub proof fn lemma_insert_keeps_unique(table: TableView, name: Seq<char>, value: AttributeValueView)
    requires
        table_unique(table),
    ensures
        table_unique(table_insert(table, name, value)),
        table_get(table_insert(table, name, value), name) == Some(value),
{
    lemma_first_match(table, name, 0);
    let next = table_insert(table, name, value);
    lemma_first_match(next, name, 0);
    match spec_first_match(table, name, 0) {
        Some(i) => {
            assert(next[i].0 == name);
        },
        None => {
            assert(next[table.len() as int].0 == name);
        },
    }
}

/// The view of an optional pool.
pub open spec fn pool_view(pool: Option<&ConstantPool>) -> Option<ConstantPoolView> {
    match pool {
        Some(p) => Some(p@),
        None => None,
    }
}

/// The constant at `index` of `pool`, if there is a pool and the slot is
/// populated.
pub open spec fn spec_lookup(pool: Option<ConstantPoolView>, index: u16) -> Option<ConstantView> {
    match pool {
        None => None,
        Some(p) => if p.members.contains_key(index as int) {
            Some(p.members[index as int])
        } else {
            None
        },
    }
}

/// The name of an attribute whose name index is `index`: the text of the
/// UTF-8 constant there.
pub open spec fn spec_attribute_name(pool: Option<ConstantPoolView>, index: u16) -> Result<
    Seq<char>,
    AttributeError,
> {
    match spec_lookup(pool, index) {
        None => Err(AttributeError::NoAttribName),
        Some(ConstantView::Utf8 { value }) => Ok(value),
        Some(_) => Err(AttributeError::InvalidNameType),
    }
}

/// The failure of an attribute whose data ended early.
pub open spec fn attribute_io<T>(e: ReadError) -> Result<T, AttributeError> {
    Err(AttributeError::IOError(e))
}

/// Outcome and next position of decoding a table at `pos`: a big-endian
/// `u16` count, then that many records.
pub open spec fn spec_read_counted<E: FlatEntry>(s: Seq<u8>, pos: int) -> (
    Result<Seq<E>, AttributeError>,
    int,
) {
    match spec_read_u16(s, pos) {
        (Err(e), p) => (attribute_io(e), p),
        (Ok(count), p) => match spec_read_entries::<E>(s, p, count as nat, Seq::empty()) {
            (Err(e), q) => (attribute_io(e), q),
            (Ok(table), q) => (Ok(table), q),
        },
    }
}

/// Outcome and next position of decoding a method-parameter table at `pos`:
/// a one-byte count, then that many records.
pub open spec fn spec_read_parameters(s: Seq<u8>, pos: int) -> (
    Result<Seq<MethodParameter>, AttributeError>,
    int,
) {
    match spec_read_u8(s, pos) {
        (Err(e), p) => (attribute_io(e), p),
        (Ok(count), p) => match spec_read_entries::<MethodParameter>(
            s,
            p,
            count as nat,
            Seq::empty(),
        ) {
            (Err(e), q) => (attribute_io(e), q),
            (Ok(table), q) => (Ok(table), q),
        },
    }
}

/// Outcome and next position of decoding an enclosing-method record at
/// `pos`: the class index, then the method index.
pub open spec fn spec_read_enclosing(s: Seq<u8>, pos: int) -> (
    Result<(usize, usize), AttributeError>,
    int,
) {
    match spec_read_u16(s, pos) {
        (Err(e), p) => (attribute_io(e), p),
        (Ok(class_index), p) => match spec_read_u16(s, p) {
            (Err(e), q) => (attribute_io(e), q),
            (Ok(method_index), q) => (Ok((class_index as usize, method_index as usize)), q),
        },
    }
}

/// Outcome and next position of decoding a signature record at `pos`: the
/// index of a UTF-8 constant, whose text is the signature.
pub open spec fn spec_read_signature(s: Seq<u8>, pos: int, pool: Option<ConstantPoolView>) -> (
    Result<Seq<char>, AttributeError>,
    int,
) {
    match spec_read_u16(s, pos) {
        (Err(e), p) => (attribute_io(e), p),
        (Ok(index), p) => match spec_lookup(pool, index) {
            Some(ConstantView::Utf8 { value }) => (Ok(value), p),
            _ => (Err(AttributeError::MissingConstant), p),
        },
    }
}

/// Outcome and next position of decoding a single index at `pos`.
pub open spec fn spec_read_index(s: Seq<u8>, pos: int) -> (Result<u16, AttributeError>, int) {
    match spec_read_u16(s, pos) {
        (Err(e), p) => (attribute_io(e), p),
        (Ok(index), p) => (Ok(index), p),
    }
}

/// The fixed part of a code body: stack depth, local slots, instruction
/// bytes and exception handlers.
pub struct CodeHead {
    pub max_stack: usize,
    pub max_locals: usize,
    pub code: Seq<u8>,
    pub exception_table: Seq<ExceptionTableEntry>,
}

/// Outcome and next position of decoding the fixed part of a code body at
/// `pos`: `u16` stack depth, `u16` local slots, `u32` code length and that
/// many instruction bytes, `u16` handler count and that many handlers.
pub open spec fn spec_read_code_head(s: Seq<u8>, pos: int) -> (
    Result<CodeHead, AttributeError>,
    int,
) {
    match spec_read_u16(s, pos) {
        (Err(e), p) => (attribute_io(e), p),
        (Ok(max_stack), at1) => match spec_read_u16(s, at1) {
            (Err(e), p) => (attribute_io(e), p),
            (Ok(max_locals), at2) => match spec_read_u32(s, at2) {
                (Err(e), p) => (attribute_io(e), p),
                (Ok(code_length), at3) => match spec_read_bytes(s, at3, code_length as int) {
                    (Err(e), p) => (attribute_io(e), p),
                    (Ok(code), at4) => match spec_read_counted::<ExceptionTableEntry>(s, at4) {
                        (Err(e), p) => (Err(e), p),
                        (Ok(exception_table), at5) => (
                            Ok(
                                CodeHead {
                                    max_stack: max_stack as usize,
                                    max_locals: max_locals as usize,
                                    code,
                                    exception_table,
                                },
                            ),
                            at5,
                        ),
                    },
                },
            },
        },
    }
}

/// Outcome and next position of decoding a code body at `pos`: its fixed
/// part, then its own attribute table.
pub open spec fn spec_read_code(s: Seq<u8>, pos: int, pool: Option<ConstantPoolView>) -> (
    Result<CodeDataView, AttributeError>,
    int,
)
    decreases s.len(), 3nat, 0nat,
{
    match spec_read_code_head(s, pos) {
        (Err(e), p) => (Err(e), p),
        (Ok(head), p) => match spec_read_all(s, p, pool) {
            (Err(e), q) => (Err(e), q),
            (Ok(attributes), q) => (
                Ok(
                    CodeDataView {
                        max_stack: head.max_stack,
                        max_locals: head.max_locals,
                        code: head.code,
                        exception_table: head.exception_table,
                        attributes,
                    },
                ),
                q,
            ),
        },
    }
}

/// The value of the attribute named `name` whose payload is `data`.
///
/// The name selects the shape. The payload is decoded from its start and
/// what the shape does not consume is ignored; a payload too short for its
/// shape is a read failure. A name that is not known gives the `Unknown`
/// value, which keeps the name and the payload as they are.
pub open spec fn spec_attribute_value(
    name: Seq<char>,
    data: Seq<u8>,
    pool: Option<ConstantPoolView>,
) -> Result<AttributeValueView, AttributeError>
    decreases data.len(), 4nat, 0nat,
{
    if name == "Code"@ {
        match spec_read_code(data, 0, pool).0 {
            Err(e) => Err(e),
            Ok(code) => Ok(AttributeValueView::Code(code)),
        }
    } else if name == "ConstantValue"@ {
        match spec_read_index(data, 0).0 {
            Err(e) => Err(e),
            Ok(index) => Ok(AttributeValueView::ConstantValue(index)),
        }
    } else if name == "Deprecated"@ {
        Ok(AttributeValueView::Deprecated)
    } else if name == "Exceptions"@ {
        match spec_read_counted::<usize>(data, 0).0 {
            Err(e) => Err(e),
            Ok(table) => Ok(AttributeValueView::Exceptions(table)),
        }
    } else if name == "InnerClasses"@ {
        match spec_read_counted::<InnerClass>(data, 0).0 {
            Err(e) => Err(e),
            Ok(table) => Ok(AttributeValueView::InnerClasses(table)),
        }
    } else if name == "Signature"@ {
        match spec_read_signature(data, 0, pool).0 {
            Err(e) => Err(e),
            Ok(signature) => Ok(AttributeValueView::Signature(signature)),
        }
    } else if name == "LineNumberTable"@ {
        match spec_read_counted::<LineNumber>(data, 0).0 {
            Err(e) => Err(e),
            Ok(table) => Ok(AttributeValueView::LineNumberTable(table)),
        }
    } else if name == "LocalVariableTable"@ {
        match spec_read_counted::<LocalVariable>(data, 0).0 {
            Err(e) => Err(e),
            Ok(table) => Ok(AttributeValueView::LocalVariableTable(table)),
        }
    } else if name == "SourceFile"@ {
        match spec_read_index(data, 0).0 {
            Err(e) => Err(e),
            Ok(index) => Ok(AttributeValueView::SourceFile(index)),
        }
    } else if name == "Synthetic"@ {
        Ok(AttributeValueView::Synthetic)
    } else if name == "AnnotationDefault"@ {
        Ok(AttributeValueView::AnnotationDefault(data))
    } else if name == "EnclosingMethod"@ {
        match spec_read_enclosing(data, 0).0 {
            Err(e) => Err(e),
            Ok(found) => Ok(
                AttributeValueView::EnclosingMethod { class_index: found.0, method_index: found.1 },
            ),
        }
    } else if name == "LocalVariableTypeTable"@ {
        match spec_read_counted::<LocalVariableType>(data, 0).0 {
            Err(e) => Err(e),
            Ok(table) => Ok(AttributeValueView::LocalVariableTypeTable(table)),
        }
    } else if name == "MethodParameters"@ {
        match spec_read_parameters(data, 0).0 {
            Err(e) => Err(e),
            Ok(table) => Ok(AttributeValueView::MethodParameters(table)),
        }
    } else {
        Ok(AttributeValueView::Unknown { name, data })
    }
}

/// Outcome and next position of decoding one attribute record at `pos`: the
/// `u16` index of its name, a `u32` length, and exactly that many payload
/// bytes, which alone decide the value.
pub open spec fn spec_read_attribute(s: Seq<u8>, pos: int, pool: Option<ConstantPoolView>) -> (
    Result<(Seq<char>, AttributeValueView), AttributeError>,
    int,
)
    decreases s.len(), 0nat, 0nat,
{
    match spec_read_u16(s, pos) {
        (Err(e), p) => (attribute_io(e), p),
        (Ok(name_index), at1) => match spec_attribute_name(pool, name_index) {
            Err(e) => (Err(e), at1),
            Ok(name) => match spec_read_u32(s, at1) {
                (Err(e), p) => (attribute_io(e), p),
                (Ok(length), at2) => match spec_read_bytes(s, at2, length as int) {
                    (Err(e), p) => (attribute_io(e), p),
                    (Ok(data), at3) => match spec_attribute_value(name, data, pool) {
                        Err(e) => (Err(e), at3),
                        Ok(value) => (Ok((name, value)), at3),
                    },
                },
            },
        },
    }
}

/// Outcome and next position of decoding `count` attribute records at `pos`
/// into the table `done`; a later record replaces an earlier one of the same
/// name.
pub open spec fn spec_read_attributes(
    s: Seq<u8>,
    pos: int,
    count: nat,
    done: TableView,
    pool: Option<ConstantPoolView>,
) -> (Result<TableView, AttributeError>, int)
    decreases s.len(), 1nat, count,
{
    if count == 0 {
        (Ok(done), pos)
    } else {
        match spec_read_attribute(s, pos, pool) {
            (Err(e), p) => (Err(e), p),
            (Ok(found), p) => spec_read_attributes(
                s,
                p,
                (count - 1) as nat,
                table_insert(done, found.0, found.1),
                pool,
            ),
        }
    }
}

/// Outcome and next position of decoding an attribute table at `pos`: a
/// `u16` count, then that many attribute records.
pub open spec fn spec_read_all(s: Seq<u8>, pos: int, pool: Option<ConstantPoolView>) -> (
    Result<TableView, AttributeError>,
    int,
)
    decreases s.len(), 2nat, 0nat,
{
    match spec_read_u16(s, pos) {
        (Err(e), p) => (attribute_io(e), p),
        (Ok(count), p) => spec_read_attributes(s, p, count as nat, Seq::empty(), pool),
    }
}

impl AttributeTable {
    /// A table without attributes.
    pub fn new() -> (table: AttributeTable)
        ensures
            table@ == TableView::empty(),
    {
        let table = AttributeTable { entries: Vec::new() };
        table
    }

    /// The number of attributes in the table.
    pub fn len(&self) -> (n: usize)
        ensures
            n == self@.len(),
    {
        self.entries.len()
    }

    /// The index of the first attribute named `name`.
    fn position(&self, name: &str) -> (r: Option<usize>)
        ensures
            match r {
                Some(i) => i < self.entries@.len() && spec_first_match(self@, name@, 0) == Some(
                    i as int,
                ),
                None => spec_first_match(self@, name@, 0) is None,
            },
    {
        let mut i: usize = 0;
        while i < self.entries.len()
            invariant
                i <= self.entries@.len(),
                self@.len() == self.entries@.len(),
                spec_first_match(self@, name@, 0) == spec_first_match(self@, name@, i as int),
            decreases self.entries.len() - i,
        {
            if str_eq(self.entries[i].0.as_str(), name) {
                return Some(i);
            }
            i += 1;
        }
        None
    }

    /// The attribute named `name`, if the table holds one.
    pub fn get(&self, name: &str) -> (r: Option<&AttributeValue>)
        ensures
            match r {
                Some(value) => table_get(self@, name@) == Some(value@),
                None => table_get(self@, name@) is None,
            },
    {
        match self.position(name) {
            Some(i) => {
                Some(&self.entries[i].1)
            },
            None => None,
        }
    }

    /// Stores `value` under `name`. It takes the place of the attribute of
    /// that name if there is one, and is added at the end otherwise.
    pub fn insert(&mut self, name: String, value: AttributeValue)
        ensures
            final(self)@ == table_insert(old(self)@, name@, value@),
            table_unique(old(self)@) ==> table_unique(final(self)@),
    {
        let ghost before = self@;
        let ghost n = name@;
        let ghost v = value@;
        match self.position(name.as_str()) {
            Some(i) => {
                self.entries.set(i, (name, value));
            },
            None => {
                self.entries.push((name, value));
            },
        }
        proof {
            if table_unique(before) {
                lemma_insert_keeps_unique(before, n, v);
            }
        }
    }
}

/// The constant at `index` of `pool`, if there is a pool and the slot is
/// populated.
fn lookup<'a>(pool: Option<&'a ConstantPool>, index: u16) -> (r: Option<&'a Constant>)
    ensures
        match r {
            Some(c) => spec_lookup(pool_view(pool), index) == Some(c@),
            None => spec_lookup(pool_view(pool), index) is None,
        },
{
    match pool {
        None => None,
        Some(p) => match p.try_get(index as usize) {
            Ok(c) => Some(c),
            Err(_) => None,
        },
    }
}

/// Decodes a table: a `u16` count, then that many records.
pub fn read_counted<E: FlatEntry>(r: &mut ByteCursor) -> (out: Result<Vec<E>, AttributeError>)
    ensures
        final(r).bytes() == old(r).bytes(),
        (ok_view(out), final(r).position()) == spec_read_counted::<E>(
            old(r).bytes(),
            old(r).position(),
        ),
{
    let count = match r.read_u16() {
        Ok(n) => n,
        Err(e) => return Err(AttributeError::IOError(e)),
    };
    match read_entries::<E>(r, count as usize) {
        Ok(table) => Ok(table),
        Err(e) => Err(AttributeError::IOError(e)),
    }
}

impl ExceptionData {
    /// Decodes the exceptions list: a `u16` count, then that many records.
    fn decode(r: &mut ByteCursor, _constant_pool: Option<&ConstantPool>) -> (out: Result<
        ExceptionData,
        AttributeError,
    >)
        ensures
            final(r).bytes() == old(r).bytes(),
            (
                match out {
                    Ok(data) => Ok(data.exceptions@),
                    Err(e) => Err(e),
                },
                final(r).position(),
            ) == spec_read_counted::<usize>(old(r).bytes(), old(r).position()),
    {
        match read_counted::<usize>(r) {
            Ok(exceptions) => Ok(ExceptionData { exceptions }),
            Err(e) => Err(e),
        }
    }
}

impl InnerClassData {
    /// Decodes the inner-classes table: a `u16` count, then that many records.
    fn decode(r: &mut ByteCursor, _constant_pool: Option<&ConstantPool>) -> (out: Result<
        InnerClassData,
        AttributeError,
    >)
        ensures
            final(r).bytes() == old(r).bytes(),
            (
                match out {
                    Ok(data) => Ok(data.classes@),
                    Err(e) => Err(e),
                },
                final(r).position(),
            ) == spec_read_counted::<InnerClass>(old(r).bytes(), old(r).position()),
    {
        match read_counted::<InnerClass>(r) {
            Ok(classes) => Ok(InnerClassData { classes }),
            Err(e) => Err(e),
        }
    }
}

impl LineNumberTable {
    /// Decodes the line-number table: a `u16` count, then that many records.
    fn decode(r: &mut ByteCursor, _constant_pool: Option<&ConstantPool>) -> (out: Result<
        LineNumberTable,
        AttributeError,
    >)
        ensures
            final(r).bytes() == old(r).bytes(),
            (
                match out {
                    Ok(data) => Ok(data.table@),
                    Err(e) => Err(e),
                },
                final(r).position(),
            ) == spec_read_counted::<LineNumber>(old(r).bytes(), old(r).position()),
    {
        match read_counted::<LineNumber>(r) {
            Ok(table) => Ok(LineNumberTable { table }),
            Err(e) => Err(e),
        }
    }
}

impl LocalVariableTable {
    /// Decodes the local-variable table: a `u16` count, then that many records.
    fn decode(r: &mut ByteCursor, _constant_pool: Option<&ConstantPool>) -> (out: Result<
        LocalVariableTable,
        AttributeError,
    >)
        ensures
            final(r).bytes() == old(r).bytes(),
            (
                match out {
                    Ok(data) => Ok(data.table@),
                    Err(e) => Err(e),
                },
                final(r).position(),
            ) == spec_read_counted::<LocalVariable>(old(r).bytes(), old(r).position()),
    {
        match read_counted::<LocalVariable>(r) {
            Ok(table) => Ok(LocalVariableTable { table }),
            Err(e) => Err(e),
        }
    }
}

impl LocalVariableTypeTable {
    /// Decodes the local-variable type table: a `u16` count, then that many records.
    fn decode(r: &mut ByteCursor, _constant_pool: Option<&ConstantPool>) -> (out: Result<
        LocalVariableTypeTable,
        AttributeError,
    >)
        ensures
            final(r).bytes() == old(r).bytes(),
            (
                match out {
                    Ok(data) => Ok(data.table@),
                    Err(e) => Err(e),
                },
                final(r).position(),
            ) == spec_read_counted::<LocalVariableType>(old(r).bytes(), old(r).position()),
    {
        match read_counted::<LocalVariableType>(r) {
            Ok(table) => Ok(LocalVariableTypeTable { table }),
            Err(e) => Err(e),
        }
    }
}

impl AnnotationDefaultData {
    /// Takes every byte that is left as the undecoded default value.
    fn decode(r: &mut ByteCursor, _constant_pool: Option<&ConstantPool>) -> (out: Result<
        AnnotationDefaultData,
        AttributeError,
    >)
        ensures
            final(r).bytes() == old(r).bytes(),
            final(r).position() == old(r).bytes().len(),
            out matches Ok(data) && data.default@ == spec_rest(old(r).bytes(), old(r).position()),
    {
        Ok(AnnotationDefaultData { default: r.read_to_end() })
    }
}

impl EnclosingMethodData {
    /// Decodes the class index and the method index.
    fn decode(r: &mut ByteCursor, _constant_pool: Option<&ConstantPool>) -> (out: Result<
        EnclosingMethodData,
        AttributeError,
    >)
        ensures
            final(r).bytes() == old(r).bytes(),
            (
                match out {
                    Ok(data) => Ok((data.class_index, data.method_index)),
                    Err(e) => Err(e),
                },
                final(r).position(),
            ) == spec_read_enclosing(old(r).bytes(), old(r).position()),
    {
        let class_index = match r.read_u16() {
            Ok(v) => v as usize,
            Err(e) => return Err(AttributeError::IOError(e)),
        };
        let method_index = match r.read_u16() {
            Ok(v) => v as usize,
            Err(e) => return Err(AttributeError::IOError(e)),
        };
        Ok(EnclosingMethodData { class_index, method_index })
    }
}

impl SignatureData {
    /// Decodes the index of the signature and resolves it through the pool.
    /// Fails with the missing-constant condition unless the index leads to a
    /// UTF-8 constant.
    fn decode(r: &mut ByteCursor, constant_pool: Option<&ConstantPool>) -> (out: Result<
        SignatureData,
        AttributeError,
    >)
        ensures
            final(r).bytes() == old(r).bytes(),
            (
                match out {
                    Ok(data) => Ok(data.signature@),
                    Err(e) => Err(e),
                },
                final(r).position(),
            ) == spec_read_signature(old(r).bytes(), old(r).position(), pool_view(constant_pool)),
    {
        let index = match r.read_u16() {
            Ok(v) => v,
            Err(e) => return Err(AttributeError::IOError(e)),
        };
        match lookup(constant_pool, index) {
            Some(Constant::Utf8 { value }) => Ok(SignatureData { signature: value.clone() }),
            _ => Err(AttributeError::MissingConstant),
        }
    }
}

impl MethodParameterData {
    /// Decodes the method-parameter table: a one-byte count, then that many
    /// records.
    fn decode(r: &mut ByteCursor, _constant_pool: Option<&ConstantPool>) -> (out: Result<
        MethodParameterData,
        AttributeError,
    >)
        ensures
            final(r).bytes() == old(r).bytes(),
            (
                match out {
                    Ok(data) => Ok(data.parameters@),
                    Err(e) => Err(e),
                },
                final(r).position(),
            ) == spec_read_parameters(old(r).bytes(), old(r).position()),
    {
        let length = match r.read_u8() {
            Ok(n) => n,
            Err(e) => return Err(AttributeError::IOError(e)),
        };
        match read_entries::<MethodParameter>(r, length as usize) {
            Ok(parameters) => Ok(MethodParameterData { parameters }),
            Err(e) => Err(AttributeError::IOError(e)),
        }
    }
}

/// Decodes a single index.
fn read_index(r: &mut ByteCursor) -> (out: Result<u16, AttributeError>)
    ensures
        final(r).bytes() == old(r).bytes(),
        (out, final(r).position()) == spec_read_index(old(r).bytes(), old(r).position()),
{
    match r.read_u16() {
        Ok(v) => Ok(v),
        Err(e) => Err(AttributeError::IOError(e)),
    }
}

/// What [`read_code_head`] hands back: stack depth, local slots, instruction
/// bytes and exception handlers.
struct DecodedHead {
    max_stack: usize,
    max_locals: usize,
    code: Vec<u8>,
    exception_table: Vec<ExceptionTableEntry>,
}

/// Decodes the fixed part of a code body.
fn read_code_head(r: &mut ByteCursor) -> (out: Result<DecodedHead, AttributeError>)
    ensures
        final(r).bytes() == old(r).bytes(),
        (
            match out {
                Ok(head) => Ok(
                    CodeHead {
                        max_stack: head.max_stack,
                        max_locals: head.max_locals,
                        code: head.code@,
                        exception_table: head.exception_table@,
                    },
                ),
                Err(e) => Err(e),
            },
            final(r).position(),
        ) == spec_read_code_head(old(r).bytes(), old(r).position()),
{
    let max_stack = match r.read_u16() {
        Ok(v) => v as usize,
        Err(e) => return Err(AttributeError::IOError(e)),
    };
    let max_locals = match r.read_u16() {
        Ok(v) => v as usize,
        Err(e) => return Err(AttributeError::IOError(e)),
    };
    let code_length = match r.read_u32() {
        Ok(v) => v as usize,
        Err(e) => return Err(AttributeError::IOError(e)),
    };
    let code = match r.read_byte_vec(code_length) {
        Ok(v) => v,
        Err(e) => return Err(AttributeError::IOError(e)),
    };
    let exception_table = match read_counted::<ExceptionTableEntry>(r) {
        Ok(v) => v,
        Err(e) => return Err(e),
    };
    Ok(DecodedHead { max_stack, max_locals, code, exception_table })
}

impl CodeData {
    /// Decodes a code body: its fixed part, then its own attribute table.
    fn decode(r: &mut ByteCursor, constant_pool: Option<&ConstantPool>) -> (out: Result<
        CodeData,
        AttributeError,
    >)
        ensures
            final(r).bytes() == old(r).bytes(),
            (ok_view(out), final(r).position()) == spec_read_code(
                old(r).bytes(),
                old(r).position(),
                pool_view(constant_pool),
            ),
            out matches Ok(code) ==> table_unique(code@.attributes),
        decreases old(r).bytes().len(), 3nat, 0nat,
    {
        let head = match read_code_head(r) {
            Ok(head) => head,
            Err(e) => return Err(e),
        };
        let attributes = match AttributeValue::read_all(r, constant_pool) {
            Ok(attributes) => attributes,
            Err(e) => return Err(e),
        };
        Ok(
            CodeData {
                max_stack: head.max_stack,
                max_locals: head.max_locals,
                code: head.code,
                exception_table: head.exception_table,
                attributes,
            },
        )
    }
}

impl AttributeValue {
    /// Decodes one attribute record: the index of its name, a `u32` length,
    /// and exactly that many payload bytes. The value is decoded from a
    /// cursor over the payload alone, so the outer cursor ends right after
    /// the payload whatever the value's decoder consumed.
    pub fn read_from(r: &mut ByteCursor, constant_pool: Option<&ConstantPool>) -> (out: Result<
        (String, AttributeValue),
        AttributeError,
    >)
        ensures
            final(r).bytes() == old(r).bytes(),
            (
                match out {
                    Ok(found) => Ok((found.0@, found.1@)),
                    Err(e) => Err(e),
                },
                final(r).position(),
            ) == spec_read_attribute(old(r).bytes(), old(r).position(), pool_view(constant_pool)),
        decreases old(r).bytes().len(), 0nat, 0nat,
    {
        let name_i = match r.read_u16() {
            Ok(v) => v,
            Err(e) => return Err(AttributeError::IOError(e)),
        };
        let name = match lookup(constant_pool, name_i) {
            Some(Constant::Utf8 { value }) => value.clone(),
            Some(_) => return Err(AttributeError::InvalidNameType),
            None => return Err(AttributeError::NoAttribName),
        };
        let length = match r.read_u32() {
            Ok(v) => v as usize,
            Err(e) => return Err(AttributeError::IOError(e)),
        };
        let data = match r.read_byte_vec(length) {
            Ok(v) => v,
            Err(e) => return Err(AttributeError::IOError(e)),
        };
        match AttributeValue::from_name_and_data(name.as_str(), data.as_slice(), constant_pool) {
            Ok(value) => Ok((name, value)),
            Err(e) => Err(e),
        }
    }

    /// Decodes an attribute table: a `u16` count, then that many attribute
    /// records. A later record replaces an earlier one of the same name.
    pub fn read_all(r: &mut ByteCursor, constant_pool: Option<&ConstantPool>) -> (out: Result<
        AttributeTable,
        AttributeError,
    >)
        ensures
            final(r).bytes() == old(r).bytes(),
            (ok_view(out), final(r).position()) == spec_read_all(
                old(r).bytes(),
                old(r).position(),
                pool_view(constant_pool),
            ),
            out matches Ok(table) ==> table_unique(table@),
        decreases old(r).bytes().len(), 2nat, 0nat,
    {
        let ghost s = r.bytes();
        let ghost pool = pool_view(constant_pool);
        let attributes_count = match r.read_u16() {
            Ok(v) => v as usize,
            Err(e) => return Err(AttributeError::IOError(e)),
        };
        let mut attributes = AttributeTable::new();
        let mut i: usize = 0;
        while i < attributes_count
            invariant
                i <= attributes_count,
                r.bytes() == s,
                s == old(r).bytes(),
                pool == pool_view(constant_pool),
                table_unique(attributes@),
                spec_read_all(old(r).bytes(), old(r).position(), pool) == spec_read_attributes(
                    s,
                    r.position(),
                    (attributes_count - i) as nat,
                    attributes@,
                    pool,
                ),
            decreases attributes_count - i,
        {
            let (name, attrib) = match AttributeValue::read_from(r, constant_pool) {
                Ok(found) => found,
                Err(e) => return Err(e),
            };
            attributes.insert(name, attrib);
            i += 1;
        }
        Ok(attributes)
    }

    /// Decodes the value of the attribute named `name` from its payload
    /// `data`. The name selects one of the known shapes; any other name
    /// gives the `Unknown` value, which keeps the name and the payload.
    pub fn from_name_and_data(
        name: &str,
        data: &[u8],
        constant_pool: Option<&ConstantPool>,
    ) -> (out: Result<AttributeValue, AttributeError>)
        ensures
            ok_view(out) == spec_attribute_value(name@, data@, pool_view(constant_pool)),
        decreases data@.len(), 4nat, 0nat,
    {
        let mut r = ByteCursor::new(data);
        if str_eq(name, "Code") {
            match CodeData::decode(&mut r, constant_pool) {
                Ok(code) => Ok(AttributeValue::Code(code)),
                Err(e) => Err(e),
            }
        } else if str_eq(name, "ConstantValue") {
            match read_index(&mut r) {
                Ok(index) => Ok(AttributeValue::ConstantValue(index)),
                Err(e) => Err(e),
            }
        } else if str_eq(name, "Deprecated") {
            Ok(AttributeValue::Deprecated)
        } else if str_eq(name, "Exceptions") {
            match ExceptionData::decode(&mut r, constant_pool) {
                Ok(data) => Ok(AttributeValue::Exceptions(data)),
                Err(e) => Err(e),
            }
        } else if str_eq(name, "InnerClasses") {
            match InnerClassData::decode(&mut r, constant_pool) {
                Ok(data) => Ok(AttributeValue::InnerClasses(data)),
                Err(e) => Err(e),
            }
        } else if str_eq(name, "Signature") {
            match SignatureData::decode(&mut r, constant_pool) {
                Ok(data) => Ok(AttributeValue::Signature(data)),
                Err(e) => Err(e),
            }
        } else if str_eq(name, "LineNumberTable") {
            match LineNumberTable::decode(&mut r, constant_pool) {
                Ok(data) => Ok(AttributeValue::LineNumberTable(data)),
                Err(e) => Err(e),
            }
        } else if str_eq(name, "LocalVariableTable") {
            match LocalVariableTable::decode(&mut r, constant_pool) {
                Ok(data) => Ok(AttributeValue::LocalVariableTable(data)),
                Err(e) => Err(e),
            }
        } else if str_eq(name, "SourceFile") {
            match read_index(&mut r) {
                Ok(index) => Ok(AttributeValue::SourceFile(index)),
                Err(e) => Err(e),
            }
        } else if str_eq(name, "Synthetic") {
            Ok(AttributeValue::Synthetic)
        } else if str_eq(name, "AnnotationDefault") {
            match AnnotationDefaultData::decode(&mut r, constant_pool) {
                Ok(found) => {
                    assert(found.default@ =~= data@);
                    Ok(AttributeValue::AnnotationDefault(found))
                },
                Err(e) => Err(e),
            }
        } else if str_eq(name, "EnclosingMethod") {
            match EnclosingMethodData::decode(&mut r, constant_pool) {
                Ok(data) => Ok(AttributeValue::EnclosingMethod(data)),
                Err(e) => Err(e),
            }
        } else if str_eq(name, "LocalVariableTypeTable") {
            match LocalVariableTypeTable::decode(&mut r, constant_pool) {
                Ok(data) => Ok(AttributeValue::LocalVariableTypeTable(data)),
                Err(e) => Err(e),
            }
        } else if str_eq(name, "MethodParameters") {
            match MethodParameterData::decode(&mut r, constant_pool) {
                Ok(data) => Ok(AttributeValue::MethodParameters(data)),
                Err(e) => Err(e),
            }
        } else {
            Ok(AttributeValue::Unknown { name: name.to_owned(), data: slice_to_vec(data) })
        }
    }
}

/// An attribute of a known shape: its name, and how its data is decoded.
pub trait Attribute: Sized {
    /// The name under which the attribute stands in a class file.
    spec fn spec_name() -> Seq<char>;

    /// The attribute value that holds the data.
    spec fn as_value(&self) -> AttributeValueView;

    /// Outcome and next position of decoding the data at `pos`.
    spec fn spec_read_data(s: Seq<u8>, pos: int, pool: Option<ConstantPoolView>) -> (
        Result<AttributeValueView, AttributeError>,
        int,
    );

    /// The name under which the attribute stands in a class file.
    fn name() -> (r: &'static str)
        ensures
            r@ == Self::spec_name(),
    ;

    /// Decodes the data of the attribute from the cursor.
    fn read_data(r: &mut ByteCursor, constant_pool: Option<&ConstantPool>) -> (out: Result<
        Self,
        AttributeError,
    >)
        ensures
            final(r).bytes() == old(r).bytes(),
            (
                match out {
                    Ok(data) => Ok(data.as_value()),
                    Err(e) => Err(e),
                },
                final(r).position(),
            ) == Self::spec_read_data(old(r).bytes(), old(r).position(), pool_view(constant_pool)),
    ;
}

/// The outcome `step` with its value wrapped by `wrap`.
pub open spec fn spec_wrap<T>(
    step: (Result<T, AttributeError>, int),
    wrap: spec_fn(T) -> AttributeValueView,
) -> (Result<AttributeValueView, AttributeError>, int) {
    match step.0 {
        Ok(value) => (Ok(wrap(value)), step.1),
        Err(e) => (Err(e), step.1),
    }
}

impl Attribute for CodeData {
    open spec fn spec_name() -> Seq<char> {
        "Code"@
    }

    open spec fn as_value(&self) -> AttributeValueView {
        AttributeValueView::Code(code_view(*self))
    }

    open spec fn spec_read_data(s: Seq<u8>, pos: int, pool: Option<ConstantPoolView>) -> (
        Result<AttributeValueView, AttributeError>,
        int,
    ) {
        spec_wrap(spec_read_code(s, pos, pool), |code: CodeDataView| AttributeValueView::Code(code))
    }

    fn name() -> (r: &'static str) {
        "Code"
    }

    fn read_data(r: &mut ByteCursor, constant_pool: Option<&ConstantPool>) -> (out: Result<
        Self,
        AttributeError,
    >) {
        CodeData::decode(r, constant_pool)
    }
}

impl Attribute for ExceptionData {
    open spec fn spec_name() -> Seq<char> {
        "Exceptions"@
    }

    open spec fn as_value(&self) -> AttributeValueView {
        AttributeValueView::Exceptions(self.exceptions@)
    }

    open spec fn spec_read_data(s: Seq<u8>, pos: int, pool: Option<ConstantPoolView>) -> (
        Result<AttributeValueView, AttributeError>,
        int,
    ) {
        spec_wrap(spec_read_counted::<usize>(s, pos), |table: Seq<usize>| AttributeValueView::Exceptions(table))
    }

    fn name() -> (r: &'static str) {
        "Exceptions"
    }

    fn read_data(r: &mut ByteCursor, constant_pool: Option<&ConstantPool>) -> (out: Result<
        Self,
        AttributeError,
    >) {
        ExceptionData::decode(r, constant_pool)
    }
}

impl Attribute for InnerClassData {
    open spec fn spec_name() -> Seq<char> {
        "InnerClasses"@
    }

    open spec fn as_value(&self) -> AttributeValueView {
        AttributeValueView::InnerClasses(self.classes@)
    }

    open spec fn spec_read_data(s: Seq<u8>, pos: int, pool: Option<ConstantPoolView>) -> (
        Result<AttributeValueView, AttributeError>,
        int,
    ) {
        spec_wrap(spec_read_counted::<InnerClass>(s, pos), |table: Seq<InnerClass>| AttributeValueView::InnerClasses(table))
    }

    fn name() -> (r: &'static str) {
        "InnerClasses"
    }

    fn read_data(r: &mut ByteCursor, constant_pool: Option<&ConstantPool>) -> (out: Result<
        Self,
        AttributeError,
    >) {
        InnerClassData::decode(r, constant_pool)
    }
}

impl Attribute for LineNumberTable {
    open spec fn spec_name() -> Seq<char> {
        "LineNumberTable"@
    }

    open spec fn as_value(&self) -> AttributeValueView {
        AttributeValueView::LineNumberTable(self.table@)
    }

    open spec fn spec_read_data(s: Seq<u8>, pos: int, pool: Option<ConstantPoolView>) -> (
        Result<AttributeValueView, AttributeError>,
        int,
    ) {
        spec_wrap(spec_read_counted::<LineNumber>(s, pos), |table: Seq<LineNumber>| AttributeValueView::LineNumberTable(table))
    }

    fn name() -> (r: &'static str) {
        "LineNumberTable"
    }

    fn read_data(r: &mut ByteCursor, constant_pool: Option<&ConstantPool>) -> (out: Result<
        Self,
        AttributeError,
    >) {
        LineNumberTable::decode(r, constant_pool)
    }
}

impl Attribute for LocalVariableTable {
    open spec fn spec_name() -> Seq<char> {
        "LocalVariableTable"@
    }

    open spec fn as_value(&self) -> AttributeValueView {
        AttributeValueView::LocalVariableTable(self.table@)
    }

    open spec fn spec_read_data(s: Seq<u8>, pos: int, pool: Option<ConstantPoolView>) -> (
        Result<AttributeValueView, AttributeError>,
        int,
    ) {
        spec_wrap(spec_read_counted::<LocalVariable>(s, pos), |table: Seq<LocalVariable>| AttributeValueView::LocalVariableTable(table))
    }

    fn name() -> (r: &'static str) {
        "LocalVariableTable"
    }

    fn read_data(r: &mut ByteCursor, constant_pool: Option<&ConstantPool>) -> (out: Result<
        Self,
        AttributeError,
    >) {
        LocalVariableTable::decode(r, constant_pool)
    }
}

impl Attribute for AnnotationDefaultData {
    open spec fn spec_name() -> Seq<char> {
        "AnnotationDefault"@
    }

    open spec fn as_value(&self) -> AttributeValueView {
        AttributeValueView::AnnotationDefault(self.default@)
    }

    open spec fn spec_read_data(s: Seq<u8>, pos: int, pool: Option<ConstantPoolView>) -> (
        Result<AttributeValueView, AttributeError>,
        int,
    ) {
        (Ok(AttributeValueView::AnnotationDefault(spec_rest(s, pos))), s.len() as int)
    }

    fn name() -> (r: &'static str) {
        "AnnotationDefault"
    }

    fn read_data(r: &mut ByteCursor, constant_pool: Option<&ConstantPool>) -> (out: Result<
        Self,
        AttributeError,
    >) {
        AnnotationDefaultData::decode(r, constant_pool)
    }
}

impl Attribute for EnclosingMethodData {
    open spec fn spec_name() -> Seq<char> {
        "EnclosingMethod"@
    }

    open spec fn as_value(&self) -> AttributeValueView {
        AttributeValueView::EnclosingMethod { class_index: self.class_index, method_index: self.method_index }
    }

    open spec fn spec_read_data(s: Seq<u8>, pos: int, pool: Option<ConstantPoolView>) -> (
        Result<AttributeValueView, AttributeError>,
        int,
    ) {
        spec_wrap(spec_read_enclosing(s, pos), |found: (usize, usize)| AttributeValueView::EnclosingMethod { class_index: found.0, method_index: found.1 })
    }

    fn name() -> (r: &'static str) {
        "EnclosingMethod"
    }

    fn read_data(r: &mut ByteCursor, constant_pool: Option<&ConstantPool>) -> (out: Result<
        Self,
        AttributeError,
    >) {
        EnclosingMethodData::decode(r, constant_pool)
    }
}

impl Attribute for LocalVariableTypeTable {
    open spec fn spec_name() -> Seq<char> {
        "LocalVariableTypeTable"@
    }

    open spec fn as_value(&self) -> AttributeValueView {
        AttributeValueView::LocalVariableTypeTable(self.table@)
    }

    open spec fn spec_read_data(s: Seq<u8>, pos: int, pool: Option<ConstantPoolView>) -> (
        Result<AttributeValueView, AttributeError>,
        int,
    ) {
        spec_wrap(spec_read_counted::<LocalVariableType>(s, pos), |table: Seq<LocalVariableType>| AttributeValueView::LocalVariableTypeTable(table))
    }

    fn name() -> (r: &'static str) {
        "LocalVariableTypeTable"
    }

    fn read_data(r: &mut ByteCursor, constant_pool: Option<&ConstantPool>) -> (out: Result<
        Self,
        AttributeError,
    >) {
        LocalVariableTypeTable::decode(r, constant_pool)
    }
}

impl Attribute for SignatureData {
    open spec fn spec_name() -> Seq<char> {
        "Signature"@
    }

    open spec fn as_value(&self) -> AttributeValueView {
        AttributeValueView::Signature(self.signature@)
    }

    open spec fn spec_read_data(s: Seq<u8>, pos: int, pool: Option<ConstantPoolView>) -> (
        Result<AttributeValueView, AttributeError>,
        int,
    ) {
        spec_wrap(spec_read_signature(s, pos, pool), |signature: Seq<char>| AttributeValueView::Signature(signature))
    }

    fn name() -> (r: &'static str) {
        "Signature"
    }

    fn read_data(r: &mut ByteCursor, constant_pool: Option<&ConstantPool>) -> (out: Result<
        Self,
        AttributeError,
    >) {
        SignatureData::decode(r, constant_pool)
    }
}

impl Attribute for MethodParameterData {
    open spec fn spec_name() -> Seq<char> {
        "MethodParameters"@
    }

    open spec fn as_value(&self) -> AttributeValueView {
        AttributeValueView::MethodParameters(self.parameters@)
    }

    open spec fn spec_read_data(s: Seq<u8>, pos: int, pool: Option<ConstantPoolView>) -> (
        Result<AttributeValueView, AttributeError>,
        int,
    ) {
        spec_wrap(spec_read_parameters(s, pos), |table: Seq<MethodParameter>| AttributeValueView::MethodParameters(table))
    }

    fn name() -> (r: &'static str) {
        "MethodParameters"
    }

    fn read_data(r: &mut ByteCursor, constant_pool: Option<&ConstantPool>) -> (out: Result<
        Self,
        AttributeError,
    >) {
        MethodParameterData::decode(r, constant_pool)
    }
}

/// Access to the data of an attribute value of a known shape.
pub trait AsData<D> {
    /// The data of the value when it has the shape whose data is `D`.
    spec fn shape_data(&self) -> Option<D>;

    /// The data of the value when it has the shape, the invalid-data failure
    /// when it has another.
    fn as_data(&self) -> (r: Result<&D, AttributeError>)
        ensures
            match r {
                Ok(data) => <Self as AsData<D>>::shape_data(self) == Some(*data),
                Err(e) => <Self as AsData<D>>::shape_data(self) is None && e
                    == AttributeError::InvalidData,
            },
    ;
}

impl AsData<CodeData> for AttributeValue {
    open spec fn shape_data(&self) -> Option<CodeData> {
        match self {
            AttributeValue::Code(it) => Some(*it),
            _ => None,
        }
    }

    fn as_data(&self) -> Result<&CodeData, AttributeError> {
        match self {
            AttributeValue::Code(it) => Ok(it),
            _ => Err(AttributeError::InvalidData),
        }
    }
}

impl AsData<ExceptionData> for AttributeValue {
    open spec fn shape_data(&self) -> Option<ExceptionData> {
        match self {
            AttributeValue::Exceptions(it) => Some(*it),
            _ => None,
        }
    }

    fn as_data(&self) -> Result<&ExceptionData, AttributeError> {
        match self {
            AttributeValue::Exceptions(it) => Ok(it),
            _ => Err(AttributeError::InvalidData),
        }
    }
}

impl AsData<InnerClassData> for AttributeValue {
    open spec fn shape_data(&self) -> Option<InnerClassData> {
        match self {
            AttributeValue::InnerClasses(it) => Some(*it),
            _ => None,
        }
    }

    fn as_data(&self) -> Result<&InnerClassData, AttributeError> {
        match self {
            AttributeValue::InnerClasses(it) => Ok(it),
            _ => Err(AttributeError::InvalidData),
        }
    }
}

impl AsData<LineNumberTable> for AttributeValue {
    open spec fn shape_data(&self) -> Option<LineNumberTable> {
        match self {
            AttributeValue::LineNumberTable(it) => Some(*it),
            _ => None,
        }
    }

    fn as_data(&self) -> Result<&LineNumberTable, AttributeError> {
        match self {
            AttributeValue::LineNumberTable(it) => Ok(it),
            _ => Err(AttributeError::InvalidData),
        }
    }
}

impl AsData<LocalVariableTable> for AttributeValue {
    open spec fn shape_data(&self) -> Option<LocalVariableTable> {
        match self {
            AttributeValue::LocalVariableTable(it) => Some(*it),
            _ => None,
        }
    }

    fn as_data(&self) -> Result<&LocalVariableTable, AttributeError> {
        match self {
            AttributeValue::LocalVariableTable(it) => Ok(it),
            _ => Err(AttributeError::InvalidData),
        }
    }
}

impl AsData<AnnotationDefaultData> for AttributeValue {
    open spec fn shape_data(&self) -> Option<AnnotationDefaultData> {
        match self {
            AttributeValue::AnnotationDefault(it) => Some(*it),
            _ => None,
        }
    }

    fn as_data(&self) -> Result<&AnnotationDefaultData, AttributeError> {
        match self {
            AttributeValue::AnnotationDefault(it) => Ok(it),
            _ => Err(AttributeError::InvalidData),
        }
    }
}

impl AsData<EnclosingMethodData> for AttributeValue {
    open spec fn shape_data(&self) -> Option<EnclosingMethodData> {
        match self {
            AttributeValue::EnclosingMethod(it) => Some(*it),
            _ => None,
        }
    }

    fn as_data(&self) -> Result<&EnclosingMethodData, AttributeError> {
        match self {
            AttributeValue::EnclosingMethod(it) => Ok(it),
            _ => Err(AttributeError::InvalidData),
        }
    }
}

impl AsData<LocalVariableTypeTable> for AttributeValue {
    open spec fn shape_data(&self) -> Option<LocalVariableTypeTable> {
        match self {
            AttributeValue::LocalVariableTypeTable(it) => Some(*it),
            _ => None,
        }
    }

    fn as_data(&self) -> Result<&LocalVariableTypeTable, AttributeError> {
        match self {
            AttributeValue::LocalVariableTypeTable(it) => Ok(it),
            _ => Err(AttributeError::InvalidData),
        }
    }
}

impl AsData<SignatureData> for AttributeValue {
    open spec fn shape_data(&self) -> Option<SignatureData> {
        match self {
            AttributeValue::Signature(it) => Some(*it),
            _ => None,
        }
    }

    fn as_data(&self) -> Result<&SignatureData, AttributeError> {
        match self {
            AttributeValue::Signature(it) => Ok(it),
            _ => Err(AttributeError::InvalidData),
        }
    }
}

impl AsData<MethodParameterData> for AttributeValue {
    open spec fn shape_data(&self) -> Option<MethodParameterData> {
        match self {
            AttributeValue::MethodParameters(it) => Some(*it),
            _ => None,
        }
    }

    fn as_data(&self) -> Result<&MethodParameterData, AttributeError> {
        match self {
            AttributeValue::MethodParameters(it) => Ok(it),
            _ => Err(AttributeError::InvalidData),
        }
    }
}

impl From<CodeData> for AttributeValue {
    fn from(value: CodeData) -> (r: AttributeValue) {
        AttributeValue::Code(value)
    }
}

impl vstd::std_specs::convert::FromSpecImpl<CodeData> for AttributeValue {
    open spec fn obeys_from_spec() -> bool {
        true
    }

    open spec fn from_spec(value: CodeData) -> AttributeValue {
        AttributeValue::Code(value)
    }
}

impl From<ExceptionData> for AttributeValue {
    fn from(value: ExceptionData) -> (r: AttributeValue) {
        AttributeValue::Exceptions(value)
    }
}

impl vstd::std_specs::convert::FromSpecImpl<ExceptionData> for AttributeValue {
    open spec fn obeys_from_spec() -> bool {
        true
    }

    open spec fn from_spec(value: ExceptionData) -> AttributeValue {
        AttributeValue::Exceptions(value)
    }
}

impl From<InnerClassData> for AttributeValue {
    fn from(value: InnerClassData) -> (r: AttributeValue) {
        AttributeValue::InnerClasses(value)
    }
}

impl vstd::std_specs::convert::FromSpecImpl<InnerClassData> for AttributeValue {
    open spec fn obeys_from_spec() -> bool {
        true
    }

    open spec fn from_spec(value: InnerClassData) -> AttributeValue {
        AttributeValue::InnerClasses(value)
    }
}

impl From<LineNumberTable> for AttributeValue {
    fn from(value: LineNumberTable) -> (r: AttributeValue) {
        AttributeValue::LineNumberTable(value)
    }
}

impl vstd::std_specs::convert::FromSpecImpl<LineNumberTable> for AttributeValue {
    open spec fn obeys_from_spec() -> bool {
        true
    }

    open spec fn from_spec(value: LineNumberTable) -> AttributeValue {
        AttributeValue::LineNumberTable(value)
    }
}

impl From<LocalVariableTable> for AttributeValue {
    fn from(value: LocalVariableTable) -> (r: AttributeValue) {
        AttributeValue::LocalVariableTable(value)
    }
}

impl vstd::std_specs::convert::FromSpecImpl<LocalVariableTable> for AttributeValue {
    open spec fn obeys_from_spec() -> bool {
        true
    }

    open spec fn from_spec(value: LocalVariableTable) -> AttributeValue {
        AttributeValue::LocalVariableTable(value)
    }
}

impl From<AnnotationDefaultData> for AttributeValue {
    fn from(value: AnnotationDefaultData) -> (r: AttributeValue) {
        AttributeValue::AnnotationDefault(value)
    }
}

impl vstd::std_specs::convert::FromSpecImpl<AnnotationDefaultData> for AttributeValue {
    open spec fn obeys_from_spec() -> bool {
        true
    }

    open spec fn from_spec(value: AnnotationDefaultData) -> AttributeValue {
        AttributeValue::AnnotationDefault(value)
    }
}

impl From<EnclosingMethodData> for AttributeValue {
    fn from(value: EnclosingMethodData) -> (r: AttributeValue) {
        AttributeValue::EnclosingMethod(value)
    }
}

impl vstd::std_specs::convert::FromSpecImpl<EnclosingMethodData> for AttributeValue {
    open spec fn obeys_from_spec() -> bool {
        true
    }

    open spec fn from_spec(value: EnclosingMethodData) -> AttributeValue {
        AttributeValue::EnclosingMethod(value)
    }
}

impl From<LocalVariableTypeTable> for AttributeValue {
    fn from(value: LocalVariableTypeTable) -> (r: AttributeValue) {
        AttributeValue::LocalVariableTypeTable(value)
    }
}

impl vstd::std_specs::convert::FromSpecImpl<LocalVariableTypeTable> for AttributeValue {
    open spec fn obeys_from_spec() -> bool {
        true
    }

    open spec fn from_spec(value: LocalVariableTypeTable) -> AttributeValue {
        AttributeValue::LocalVariableTypeTable(value)
    }
}

impl From<SignatureData> for AttributeValue {
    fn from(value: SignatureData) -> (r: AttributeValue) {
        AttributeValue::Signature(value)
    }
}

impl vstd::std_specs::convert::FromSpecImpl<SignatureData> for AttributeValue {
    open spec fn obeys_from_spec() -> bool {
        true
    }

    open spec fn from_spec(value: SignatureData) -> AttributeValue {
        AttributeValue::Signature(value)
    }
}

impl From<MethodParameterData> for AttributeValue {
    fn from(value: MethodParameterData) -> (r: AttributeValue) {
        AttributeValue::MethodParameters(value)
    }
}

impl vstd::std_specs::convert::FromSpecImpl<MethodParameterData> for AttributeValue {
    open spec fn obeys_from_spec() -> bool {
        true
    }

    open spec fn from_spec(value: MethodParameterData) -> AttributeValue {
        AttributeValue::MethodParameters(value)
    }
}

} // verus!
