//! The Java backend: how modifiers, types, members and classes are spelled.

use crate::access_flags::AccessFlags;
use crate::class_path::{ClassPath, ClassPathView};
use crate::codegen::indent::IndentKind;
use crate::constant::ConstantPool;
use crate::text::{join, join_strings, strings_view};
use crate::ty::JVMPrimitive;
use vstd::prelude::*;

verus! {

/// The keyword that names the primitive type `primitive`.
pub fn primitive_name(primitive: JVMPrimitive) -> (r: &'static str)
    ensures
        r@ == primitive.keyword(),
{
    primitive.name()
}

/// Whether every flag of `flag` is set in `bits`.
pub open spec fn has_flag(bits: u16, flag: u16) -> bool {
    bits & flag == flag
}

/// The visibility keyword of the flags `bits`: the first that applies of
/// `public`, `protected` and `private`, or none.
pub open spec fn spec_visibility(bits: u16) -> Seq<Seq<char>> {
    if has_flag(bits, AccessFlags::PUBLIC) {
        seq!["public"@]
    } else if has_flag(bits, AccessFlags::PROTECTED) {
        seq!["protected"@]
    } else if has_flag(bits, AccessFlags::PRIVATE) {
        seq!["private"@]
    } else {
        Seq::empty()
    }
}

/// `word` alone when `present`, nothing otherwise.
pub open spec fn spec_optional(present: bool, word: Seq<char>) -> Seq<Seq<char>> {
    if present {
        seq![word]
    } else {
        Seq::empty()
    }
}

/// The keyword for the kind of type that the flags `bits` declare: the first
/// that applies of `enum`, `interface` and `@interface`, or `class`.
pub open spec fn spec_kind(bits: u16) -> Seq<char> {
    if has_flag(bits, AccessFlags::ENUM) {
        "enum"@
    } else if has_flag(bits, AccessFlags::INTERFACE) {
        "interface"@
    } else if has_flag(bits, AccessFlags::ANNOTATION) {
        "@interface"@
    } else {
        "class"@
    }
}

/// The modifiers of a class declaration, in the order visibility, `static`,
/// `abstract`, `final`, and the kind of type.
pub open spec fn spec_class_words(bits: u16) -> Seq<Seq<char>> {
    spec_visibility(bits) + spec_optional(has_flag(bits, AccessFlags::STATIC), "static"@)
        + spec_optional(has_flag(bits, AccessFlags::ABSTRACT), "abstract"@) + spec_optional(
        has_flag(bits, AccessFlags::FINAL),
        "final"@,
    ) + seq![spec_kind(bits)]
}

/// The start of a class declaration: its modifiers and the kind of type,
/// separated by single spaces.
pub open spec fn spec_class_signature(bits: u16) -> Seq<char> {
    join(spec_class_words(bits), " "@)
}

/// The modifiers of a member: visibility, then `static`, separated by a
/// single space.
pub open spec fn spec_member_signature(bits: u16) -> Seq<char> {
    join(
        spec_visibility(bits) + spec_optional(has_flag(bits, AccessFlags::STATIC), "static"@),
        " "@,
    )
}

/// Adds the visibility keyword of `access_flags` to `parts`.
fn push_visibility(parts: &mut Vec<String>, access_flags: AccessFlags)
    ensures
        strings_view(final(parts)@) == strings_view(old(parts)@) + spec_visibility(access_flags@),
{
    if access_flags.contains(AccessFlags::PUBLIC) {
        parts.push("public".to_owned());
    } else if access_flags.contains(AccessFlags::PROTECTED) {
        parts.push("protected".to_owned());
    } else if access_flags.contains(AccessFlags::PRIVATE) {
        parts.push("private".to_owned());
    }
}

/// Adds `word` to `parts` when `flag` is set in `access_flags`.
fn push_optional(parts: &mut Vec<String>, access_flags: AccessFlags, flag: u16, word: &str)
    ensures
        strings_view(final(parts)@) == strings_view(old(parts)@) + spec_optional(
            has_flag(access_flags@, flag),
            word@,
        ),
{
    if access_flags.contains(flag) {
        parts.push(word.to_owned());
    }
}

/// The start of a class declaration: its modifiers and the kind of type,
/// separated by single spaces.
pub fn class_signature(access_flags: AccessFlags) -> (r: String)
    ensures
        r@ == spec_class_signature(access_flags@),
{
    let mut parts: Vec<String> = Vec::new();
    push_visibility(&mut parts, access_flags);
    push_optional(&mut parts, access_flags, AccessFlags::STATIC, "static");
    push_optional(&mut parts, access_flags, AccessFlags::ABSTRACT, "abstract");
    push_optional(&mut parts, access_flags, AccessFlags::FINAL, "final");
    let ghost before = strings_view(parts@);
    if access_flags.contains(AccessFlags::ENUM) {
        parts.push("enum".to_owned());
    } else if access_flags.contains(AccessFlags::INTERFACE) {
        parts.push("interface".to_owned());
    } else if access_flags.contains(AccessFlags::ANNOTATION) {
        parts.push("@interface".to_owned());
    } else {
        parts.push("class".to_owned());
    }
    assert(strings_view(parts@) =~= before + seq![spec_kind(access_flags@)]);
    join_strings(&parts, " ")
}

/// The modifiers of a method: visibility, then `static`, separated by a
/// single space.
pub fn method_signature(access_flags: AccessFlags) -> (r: String)
    ensures
        r@ == spec_member_signature(access_flags@),
{
    let mut parts: Vec<String> = Vec::new();
    push_visibility(&mut parts, access_flags);
    push_optional(&mut parts, access_flags, AccessFlags::STATIC, "static");
    assert(strings_view(parts@) =~= spec_visibility(access_flags@) + spec_optional(
        has_flag(access_flags@, AccessFlags::STATIC),
        "static"@,
    ));
    join_strings(&parts, " ")
}

/// What the rendering of a field needs to know of its surroundings: nothing.
#[derive(Debug, Clone, Copy, PartialEq, Eq, Structural)]
pub struct FieldContext;

impl FieldContext {
    /// The modifiers of a field: visibility, then `static`, separated by a
    /// single space.
    pub fn signature(access_flags: AccessFlags) -> (r: String)
        ensures
            r@ == spec_member_signature(access_flags@),
    {
        method_signature(access_flags)
    }
}

/// What the rendering of a method needs to know of its surroundings: the
/// class it belongs to, and whether it is synthetic.
#[derive(Debug, Clone, PartialEq, Eq)]
pub struct ClassContext {
    pub class_name: ClassPath,
    pub synthetic: bool,
}

impl Default for ClassContext {
    /// The context of a method of `java.lang.Object` that is not synthetic.
    fn default() -> (r: ClassContext)
        ensures
            r.class_name@ == ClassPathView::java_lang_class("Object"@),
            !r.synthetic,
    {
        ClassContext { class_name: ClassPath::default(), synthetic: false }
    }
}

/// The marker of the rendering of types.
pub struct Type;

/// The versions of the language that can be targeted, oldest first.
#[derive(Debug, Copy, Clone, PartialEq, Eq, Structural)]
#[non_exhaustive]
pub enum JavaVersion {
    Unsupported,
    Java1,
    Java5,
    Java6,
    Java7,
    Java8,
    Java9,
    Java10,
    Java11,
    Java12,
    Java13,
    Java14,
    Java15,
    Java16,
    Java17,
    Java18,
    Java19,
    Java20,
}

impl Default for JavaVersion {
    /// The newest version.
    fn default() -> (r: JavaVersion)
        ensures
            r == JavaVersion::Java20,
    {
        JavaVersion::Java20
    }
}

/// The comment that opens a generated file unless another is chosen.
pub const DEFAULT_HEADER: &'static str = "Generated file - do not edit, your changes will be lost.";

/// How much the backend writes out.
#[derive(Debug, Copy, Clone, PartialEq, Eq, Structural)]
pub enum GeneratorVerbosity {
    /// Everything, also what a reader would not write.
    All,
    /// Only what a reader would write.
    Clean,
}

/// The settings of one run of the backend.
#[derive(Debug, Clone)]
pub struct JavaContext {
    pub target_version: JavaVersion,
    pub header_message: Option<String>,
    pub indentation: IndentKind,
    pub constant_pool: Option<ConstantPool>,
}

impl Default for JavaContext {
    /// The newest version, the default header, two spaces of indentation
    /// and no constant pool.
    fn default() -> (r: JavaContext)
        ensures
            r.target_version == JavaVersion::Java20,
            r.header_message matches Some(h) && h@ == DEFAULT_HEADER@,
            r.indentation == IndentKind::Space(2),
            r.constant_pool is None,
    {
        JavaContext {
            target_version: JavaVersion::default(),
            header_message: Some(DEFAULT_HEADER.to_owned()),
            indentation: IndentKind::Space(2),
            constant_pool: None,
        }
    }
}

/// Builds the settings of a run step by step.
#[derive(Debug)]
pub struct JavaGeneratorBuilder {
    pub result: JavaContext,
}

impl JavaGeneratorBuilder {
    /// A builder that starts from the default settings.
    pub fn new() -> (r: JavaGeneratorBuilder)
        ensures
            r.result.target_version == JavaVersion::Java20,
            r.result.header_message matches Some(h) && h@ == DEFAULT_HEADER@,
            r.result.indentation == IndentKind::Space(2),
            r.result.constant_pool is None,
    {
        JavaGeneratorBuilder { result: JavaContext::default() }
    }

    /// Targets `version`.
    pub fn version(self, version: JavaVersion) -> (r: JavaGeneratorBuilder)
        ensures
            r.result.target_version == version,
            r.result.header_message == self.result.header_message,
            r.result.indentation == self.result.indentation,
            r.result.constant_pool == self.result.constant_pool,
    {
        let mut next = self;
        next.result.target_version = version;
        next
    }

    /// Writes no header.
    pub fn no_header(self) -> (r: JavaGeneratorBuilder)
        ensures
            r.result.target_version == self.result.target_version,
            r.result.header_message is None,
            r.result.indentation == self.result.indentation,
            r.result.constant_pool == self.result.constant_pool,
    {
        let mut next = self;
        next.result.header_message = None;
        next
    }

    /// Writes `header` as the header.
    pub fn header(self, header: &str) -> (r: JavaGeneratorBuilder)
        ensures
            r.result.target_version == self.result.target_version,
            r.result.header_message matches Some(h) && h@ == header@,
            r.result.indentation == self.result.indentation,
            r.result.constant_pool == self.result.constant_pool,
    {
        let mut next = self;
        next.result.header_message = Some(header.to_owned());
        next
    }

    /// The settings that were built.
    pub fn build(self) -> (r: JavaContext)
        ensures
            r == self.result,
    {
        self.result
    }
}

/// The entry point to the builders of the backends.
pub struct GeneratorBuilder;

impl GeneratorBuilder {
    /// A builder for the Java backend.
    pub fn java() -> (r: JavaGeneratorBuilder)
        ensures
            r.result.target_version == JavaVersion::Java20,
            r.result.header_message matches Some(h) && h@ == DEFAULT_HEADER@,
            r.result.indentation == IndentKind::Space(2),
            r.result.constant_pool is None,
    {
        JavaGeneratorBuilder::new()
    }
}

} // verus!
