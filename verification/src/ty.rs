//! Type descriptor grammar: primitive, class and array types, and the
//! descriptors of fields and methods.

use crate::class_path::{spec_parse_class_path, ClassPath, ClassPathView};
use crate::cursor::{result_view, spec_read_u8, ByteCursor};
use crate::error::{JVMTypeError, JVMTypeErrorView};
use crate::text::{byte_char, push_char};
use vstd::prelude::*;

verus! {

/// What stands in the `expected` field when a primitive type code was needed.
pub const EXPECTED_PRIMITIVE: &'static str = "a primitive type";

/// What stands in the `expected` field when any type code was needed.
pub const EXPECTED_TYPE: &'static str = "a JVM type";

/// What stands in the `expected` field when a class reference lacks its `;`.
pub const EXPECTED_TERMINATOR: &'static str = "a class reference terminated by ';'";

/// What stands in the `expected` field when an array has more dimensions
/// than can be counted.
pub const EXPECTED_FEWER_DIMENSIONS: &'static str = "fewer array dimensions";

/// The primitive types of the platform, `void` among them.
#[derive(Debug, Copy, Clone, PartialEq, Eq, Hash, Structural)]
pub enum JVMPrimitive {
    TByte,
    TChar,
    TDouble,
    TFloat,
    TInt,
    TLong,
    TShort,
    TBoolean,
    TVoid,
}

impl JVMPrimitive {
    /// The primitive type with the descriptor code `c`, if there is one.
    pub open spec fn spec_from_char(c: char) -> Option<JVMPrimitive> {
        if c == 'B' {
            Some(JVMPrimitive::TByte)
        } else if c == 'C' {
            Some(JVMPrimitive::TChar)
        } else if c == 'D' {
            Some(JVMPrimitive::TDouble)
        } else if c == 'F' {
            Some(JVMPrimitive::TFloat)
        } else if c == 'I' {
            Some(JVMPrimitive::TInt)
        } else if c == 'J' {
            Some(JVMPrimitive::TLong)
        } else if c == 'S' {
            Some(JVMPrimitive::TShort)
        } else if c == 'Z' {
            Some(JVMPrimitive::TBoolean)
        } else if c == 'V' {
            Some(JVMPrimitive::TVoid)
        } else {
            None
        }
    }

    /// The simple name of the `java.lang` class that boxes the primitive.
    pub open spec fn box_name(self) -> Seq<char> {
        match self {
            JVMPrimitive::TByte => "Byte"@,
            JVMPrimitive::TChar => "Character"@,
            JVMPrimitive::TDouble => "Double"@,
            JVMPrimitive::TFloat => "Float"@,
            JVMPrimitive::TInt => "Integer"@,
            JVMPrimitive::TLong => "Long"@,
            JVMPrimitive::TShort => "Short"@,
            JVMPrimitive::TBoolean => "Boolean"@,
            JVMPrimitive::TVoid => "Void"@,
        }
    }

    /// The keyword that names the primitive in source text.
    pub open spec fn keyword(self) -> Seq<char> {
        match self {
            JVMPrimitive::TByte => "byte"@,
            JVMPrimitive::TChar => "char"@,
            JVMPrimitive::TDouble => "double"@,
            JVMPrimitive::TFloat => "float"@,
            JVMPrimitive::TInt => "int"@,
            JVMPrimitive::TLong => "long"@,
            JVMPrimitive::TShort => "short"@,
            JVMPrimitive::TBoolean => "boolean"@,
            JVMPrimitive::TVoid => "void"@,
        }
    }

    /// The primitive type with the descriptor code `value`, or an invalid
    /// type failure that names the character.
    pub fn from_char(value: char) -> (r: Result<JVMPrimitive, JVMTypeError>)
        ensures
            match r {
                Ok(p) => Self::spec_from_char(value) == Some(p),
                Err(e) => Self::spec_from_char(value) is None && e@
                    == (JVMTypeErrorView::InvalidType {
                    found: value,
                    expected: EXPECTED_PRIMITIVE@,
                }),
            },
    {
        if value == 'B' {
            Ok(JVMPrimitive::TByte)
        } else if value == 'C' {
            Ok(JVMPrimitive::TChar)
        } else if value == 'D' {
            Ok(JVMPrimitive::TDouble)
        } else if value == 'F' {
            Ok(JVMPrimitive::TFloat)
        } else if value == 'I' {
            Ok(JVMPrimitive::TInt)
        } else if value == 'J' {
            Ok(JVMPrimitive::TLong)
        } else if value == 'S' {
            Ok(JVMPrimitive::TShort)
        } else if value == 'Z' {
            Ok(JVMPrimitive::TBoolean)
        } else if value == 'V' {
            Ok(JVMPrimitive::TVoid)
        } else {
            Err(JVMTypeError::InvalidType { found: value, expected: EXPECTED_PRIMITIVE })
        }
    }

    /// The primitive that `value` is, or a failure that hands the type back
    /// when it is a class or an array.
    pub fn from_type(value: JVMType) -> (r: Result<JVMPrimitive, JVMTypeError>)
        ensures
            match r {
                Ok(p) => value@ == JVMTypeView::TPrimitive(p),
                Err(e) => !(value@ is TPrimitive) && e@ == JVMTypeErrorView::NotPrimitive(value@),
            },
    {
        match value {
            JVMType::TPrimitive(it) => Ok(it),
            _ => Err(JVMTypeError::NotPrimitive(value)),
        }
    }

    /// The `java.lang` class that boxes the primitive.
    pub fn class_path(self) -> (r: ClassPath)
        ensures
            r@ == ClassPathView::java_lang_class(self.box_name()),
    {
        match self {
            JVMPrimitive::TByte => ClassPath::java_lang_class("Byte"),
            JVMPrimitive::TChar => ClassPath::java_lang_class("Character"),
            JVMPrimitive::TDouble => ClassPath::java_lang_class("Double"),
            JVMPrimitive::TFloat => ClassPath::java_lang_class("Float"),
            JVMPrimitive::TInt => ClassPath::java_lang_class("Integer"),
            JVMPrimitive::TLong => ClassPath::java_lang_class("Long"),
            JVMPrimitive::TShort => ClassPath::java_lang_class("Short"),
            JVMPrimitive::TBoolean => ClassPath::java_lang_class("Boolean"),
            JVMPrimitive::TVoid => ClassPath::java_lang_class("Void"),
        }
    }

    /// The keyword that names the primitive in source text.
    pub fn name(self) -> (r: &'static str)
        ensures
            r@ == self.keyword(),
    {
        match self {
            JVMPrimitive::TByte => "byte",
            JVMPrimitive::TChar => "char",
            JVMPrimitive::TDouble => "double",
            JVMPrimitive::TFloat => "float",
            JVMPrimitive::TInt => "int",
            JVMPrimitive::TLong => "long",
            JVMPrimitive::TShort => "short",
            JVMPrimitive::TBoolean => "boolean",
            JVMPrimitive::TVoid => "void",
        }
    }
}

/// A type of the platform. The depth of an array type is at least 1 when it
/// comes from the decoder.
#[derive(Debug, PartialEq, Eq, Hash)]
pub enum JVMType {
    TPrimitive(JVMPrimitive),
    TClass(ClassPath),
    TPrimitiveArray { depth: usize, inner: JVMPrimitive },
    TClassArray { depth: usize, inner: ClassPath },
}

/// The mathematical value of a [`JVMType`].
pub enum JVMTypeView {
    TPrimitive(JVMPrimitive),
    TClass(ClassPathView),
    TPrimitiveArray { depth: usize, inner: JVMPrimitive },
    TClassArray { depth: usize, inner: ClassPathView },
}

impl View for JVMType {
    type V = JVMTypeView;

    open spec fn view(&self) -> JVMTypeView {
        match self {
            JVMType::TPrimitive(p) => JVMTypeView::TPrimitive(*p),
            JVMType::TClass(c) => JVMTypeView::TClass(c@),
            JVMType::TPrimitiveArray { depth, inner } => JVMTypeView::TPrimitiveArray {
                depth: *depth,
                inner: *inner,
            },
            JVMType::TClassArray { depth, inner } => JVMTypeView::TClassArray {
                depth: *depth,
                inner: inner@,
            },
        }
    }
}

impl JVMTypeView {
    /// The invariant of a type: an array has at least one dimension.
    pub open spec fn wf(self) -> bool {
        match self {
            JVMTypeView::TPrimitiveArray { depth, .. } => depth >= 1,
            JVMTypeView::TClassArray { depth, .. } => depth >= 1,
            _ => true,
        }
    }

    /// The number of array dimensions; 0 for a type that is no array.
    pub open spec fn array_depth(self) -> usize {
        match self {
            JVMTypeView::TPrimitiveArray { depth, .. } => depth,
            JVMTypeView::TClassArray { depth, .. } => depth,
            _ => 0,
        }
    }

    /// The element type of an array; any other type itself.
    pub open spec fn strip_arrays(self) -> JVMTypeView {
        match self {
            JVMTypeView::TPrimitiveArray { inner, .. } => JVMTypeView::TPrimitive(inner),
            JVMTypeView::TClassArray { inner, .. } => JVMTypeView::TClass(inner),
            _ => self,
        }
    }

    /// The class of a value of the type: the boxing class of a primitive,
    /// the class of a class type, none for an array.
    pub open spec fn class(self) -> Option<ClassPathView> {
        match self {
            JVMTypeView::TPrimitive(p) => Some(ClassPathView::java_lang_class(p.box_name())),
            JVMTypeView::TClass(c) => Some(c),
            _ => None,
        }
    }

    /// The keyword of a primitive type, none for any other type.
    pub open spec fn primitive(self) -> Option<Seq<char>> {
        match self {
            JVMTypeView::TPrimitive(p) => Some(p.keyword()),
            _ => None,
        }
    }
}

/// The text of a class reference and the position after its `;`, scanning
/// from `pos` with the characters `acc` read so far; none when the input
/// ends before a `;`.
pub open spec fn spec_scan_reference(s: Seq<u8>, pos: int, acc: Seq<char>) -> Option<
    (Seq<char>, int),
>
    decreases s.len() - pos,
{
    if !(0 <= pos < s.len()) {
        None
    } else if byte_char(s[pos]) == ';' {
        Some((acc, pos + 1))
    } else {
        spec_scan_reference(s, pos + 1, acc.push(byte_char(s[pos])))
    }
}

/// Outcome and next position of decoding a class reference at `pos`, after
/// its `L`: the characters up to the next `;` are parsed as a class path. A
/// reference whose `;` is missing is an invalid type, and leaves the cursor
/// at the end of the input.
pub open spec fn spec_read_reference(s: Seq<u8>, pos: int) -> (
    Result<ClassPathView, JVMTypeErrorView>,
    int,
) {
    match spec_scan_reference(s, pos, Seq::empty()) {
        None => (
            Err(JVMTypeErrorView::InvalidType { found: 'L', expected: EXPECTED_TERMINATOR@ }),
            s.len() as int,
        ),
        Some((reference, p)) => match spec_parse_class_path(reference) {
            Err(e) => (Err(JVMTypeErrorView::ClassPath(e)), p),
            Ok(path) => (Ok(path), p),
        },
    }
}

/// Outcome and next position of decoding the rest of an array type at `pos`,
/// after `depth` opening brackets: further brackets add dimensions, then `L`
/// starts the class reference of a class array and any other character must
/// be the code of a primitive element type.
pub open spec fn spec_read_array(s: Seq<u8>, pos: int, depth: int) -> (
    Result<JVMTypeView, JVMTypeErrorView>,
    int,
)
    decreases s.len() - pos,
{
    match spec_read_u8(s, pos) {
        (Err(e), p) => (Err(JVMTypeErrorView::IOError(e)), p),
        (Ok(b), p) => {
            let c = byte_char(b);
            if c == '[' {
                if depth < usize::MAX {
                    spec_read_array(s, p, depth + 1)
                } else {
                    (
                        Err(
                            JVMTypeErrorView::InvalidType {
                                found: c,
                                expected: EXPECTED_FEWER_DIMENSIONS@,
                            },
                        ),
                        p,
                    )
                }
            } else if c == 'L' {
                match spec_read_reference(s, p) {
                    (Err(e), q) => (Err(e), q),
                    (Ok(inner), q) => (
                        Ok(JVMTypeView::TClassArray { depth: depth as usize, inner }),
                        q,
                    ),
                }
            } else {
                match JVMPrimitive::spec_from_char(c) {
                    Some(inner) => (
                        Ok(JVMTypeView::TPrimitiveArray { depth: depth as usize, inner }),
                        p,
                    ),
                    None => (
                        Err(
                            JVMTypeErrorView::InvalidType {
                                found: c,
                                expected: EXPECTED_PRIMITIVE@,
                            },
                        ),
                        p,
                    ),
                }
            }
        },
    }
}

/// Outcome and next position of decoding the type whose first character `c`
/// was already taken, with the cursor at `pos`.
///
/// A primitive code is that primitive. `L` starts a class reference: the
/// characters up to the next `;` are parsed as a class path, and a missing
/// `;` is an invalid type. `[` starts an array. Any other character is an
/// invalid type.
pub open spec fn spec_read_type_from(c: char, s: Seq<u8>, pos: int) -> (
    Result<JVMTypeView, JVMTypeErrorView>,
    int,
) {
    match JVMPrimitive::spec_from_char(c) {
        Some(p) => (Ok(JVMTypeView::TPrimitive(p)), pos),
        None => if c == 'L' {
            match spec_read_reference(s, pos) {
                (Err(e), p) => (Err(e), p),
                (Ok(path), p) => (Ok(JVMTypeView::TClass(path)), p),
            }
        } else if c == '[' {
            spec_read_array(s, pos, 1)
        } else {
            (Err(JVMTypeErrorView::InvalidType { found: c, expected: EXPECTED_TYPE@ }), pos)
        },
    }
}

/// Outcome and next position of decoding one type at `pos`; its first
/// character is `prefix` when that is given and the next byte otherwise.
pub open spec fn spec_read_type(s: Seq<u8>, pos: int, prefix: Option<char>) -> (
    Result<JVMTypeView, JVMTypeErrorView>,
    int,
) {
    match prefix {
        Some(c) => spec_read_type_from(c, s, pos),
        None => match spec_read_u8(s, pos) {
            (Err(e), p) => (Err(JVMTypeErrorView::IOError(e)), p),
            (Ok(b), p) => spec_read_type_from(byte_char(b), s, p),
        },
    }
}

impl From<JVMPrimitive> for JVMType {
    fn from(prim: JVMPrimitive) -> (r: JVMType) {
        JVMType::TPrimitive(prim)
    }
}

impl vstd::std_specs::convert::FromSpecImpl<JVMPrimitive> for JVMType {
    open spec fn obeys_from_spec() -> bool {
        true
    }

    open spec fn from_spec(prim: JVMPrimitive) -> JVMType {
        JVMType::TPrimitive(prim)
    }
}

impl From<ClassPath> for JVMType {
    fn from(cp: ClassPath) -> (r: JVMType) {
        JVMType::TClass(cp)
    }
}

impl vstd::std_specs::convert::FromSpecImpl<ClassPath> for JVMType {
    open spec fn obeys_from_spec() -> bool {
        true
    }

    open spec fn from_spec(cp: ClassPath) -> JVMType {
        JVMType::TClass(cp)
    }
}

impl Clone for JVMType {
    fn clone(&self) -> (r: JVMType)
        ensures
            r@ == self@,
    {
        match self {
            JVMType::TPrimitive(p) => JVMType::TPrimitive(*p),
            JVMType::TClass(c) => JVMType::TClass(c.clone()),
            JVMType::TPrimitiveArray { depth, inner } => JVMType::TPrimitiveArray {
                depth: *depth,
                inner: *inner,
            },
            JVMType::TClassArray { depth, inner } => JVMType::TClassArray {
                depth: *depth,
                inner: inner.clone(),
            },
        }
    }
}

impl JVMType {
    /// Decodes a class reference from the cursor, after its `L`: the
    /// characters up to the next `;` are parsed as a class path. Fails with
    /// the invalid-type condition where the input ends before a `;`.
    pub fn read_reference(r: &mut ByteCursor) -> (out: Result<ClassPath, JVMTypeError>)
        ensures
            final(r).bytes() == old(r).bytes(),
            (result_view(out), final(r).position()) == spec_read_reference(
                old(r).bytes(),
                old(r).position(),
            ),
    {
        let ghost s = r.bytes();
        let ghost from = r.position();
        let mut reference = String::new();
        loop
            invariant_except_break
                r.bytes() == s,
                s == old(r).bytes(),
                from == old(r).position(),
                spec_scan_reference(s, from, Seq::empty()) == spec_scan_reference(
                    s,
                    r.position(),
                    reference@,
                ),
            ensures
                r.bytes() == s,
                s == old(r).bytes(),
                from == old(r).position(),
                spec_scan_reference(s, from, Seq::empty()) == Some((reference@, r.position())),
            decreases r.remaining(),
        {
            let next = match r.read_u8() {
                Ok(b) => b as char,
                Err(_) => {
                    return Err(
                        JVMTypeError::InvalidType { found: 'L', expected: EXPECTED_TERMINATOR },
                    );
                },
            };
            if next == ';' {
                break ;
            }
            push_char(&mut reference, next);
        }
        match ClassPath::parse(reference.as_str()) {
            Ok(path) => Ok(path),
            Err(e) => Err(JVMTypeError::ClassPath(e)),
        }
    }

    /// Decodes one type from the cursor.
    pub fn read_from(r: &mut ByteCursor) -> (out: Result<JVMType, JVMTypeError>)
        ensures
            final(r).bytes() == old(r).bytes(),
            (result_view(out), final(r).position()) == spec_read_type(
                old(r).bytes(),
                old(r).position(),
                None,
            ),
            out matches Ok(t) ==> t@.wf(),
    {
        JVMType::read_from_with_prefix(r, None)
    }

    /// Decodes one type from the cursor; its first character is `prefix`
    /// when that is given and the next byte otherwise.
    pub fn read_from_with_prefix(r: &mut ByteCursor, prefix: Option<char>) -> (out: Result<
        JVMType,
        JVMTypeError,
    >)
        ensures
            final(r).bytes() == old(r).bytes(),
            (result_view(out), final(r).position()) == spec_read_type(
                old(r).bytes(),
                old(r).position(),
                prefix,
            ),
            out matches Ok(t) ==> t@.wf(),
    {
        proof {
            lemma_decoded_type_is_wf(r.bytes(), r.position(), prefix);
        }
        let ghost s = r.bytes();
        let c = match prefix {
            Some(p) => p,
            None => match r.read_u8() {
                Ok(b) => b as char,
                Err(e) => return Err(JVMTypeError::IOError(e)),
            },
        };
        if let Ok(it) = JVMPrimitive::from_char(c) {
            return Ok(JVMType::TPrimitive(it));
        }
        if c == 'L' {
            match JVMType::read_reference(r) {
                Ok(path) => Ok(JVMType::TClass(path)),
                Err(e) => Err(e),
            }
        } else if c == '[' {
            let ghost from = r.position();
            let mut depth: usize = 1;
            loop
                invariant
                    r.bytes() == s,
                    s == old(r).bytes(),
                    depth >= 1,
                    spec_read_array(s, from, 1) == spec_read_array(s, r.position(), depth as int),
                    spec_read_type(old(r).bytes(), old(r).position(), prefix) == spec_read_array(
                        s,
                        from,
                        1,
                    ),
                decreases r.remaining(),
            {
                let next = match r.read_u8() {
                    Ok(b) => b as char,
                    Err(e) => return Err(JVMTypeError::IOError(e)),
                };
                if next == '[' {
                    if depth < usize::MAX {
                        depth += 1;
                    } else {
                        return Err(
                            JVMTypeError::InvalidType {
                                found: next,
                                expected: EXPECTED_FEWER_DIMENSIONS,
                            },
                        );
                    }
                } else if next == 'L' {
                    return match JVMType::read_reference(r) {
                        Ok(inner) => Ok(JVMType::TClassArray { depth, inner }),
                        Err(e) => Err(e),
                    };
                } else {
                    return match JVMPrimitive::from_char(next) {
                        Ok(inner) => Ok(JVMType::TPrimitiveArray { depth, inner }),
                        Err(e) => Err(e),
                    };
                }
            }
        } else {
            Err(JVMTypeError::InvalidType { found: c, expected: EXPECTED_TYPE })
        }
    }

    /// Parses the type that `value` spells; what follows it is ignored.
    pub fn parse(value: &str) -> (out: Result<JVMType, JVMTypeError>)
        ensures
            result_view(out) == spec_read_type(vstd::utf8::encode_utf8(value@), 0, None).0,
            out matches Ok(t) ==> t@.wf(),
    {
        let mut c = ByteCursor::new(value.as_bytes());
        JVMType::read_from(&mut c)
    }

    /// Parses the type that `value` spells; what follows it is ignored.
    pub fn from_string(value: String) -> (out: Result<JVMType, JVMTypeError>)
        ensures
            result_view(out) == spec_read_type(vstd::utf8::encode_utf8(value@), 0, None).0,
            out matches Ok(t) ==> t@.wf(),
    {
        JVMType::parse(value.as_str())
    }

    /// The number of array dimensions; 0 for a type that is no array.
    pub fn array_depth(&self) -> (r: usize)
        ensures
            r == self@.array_depth(),
    {
        match self {
            JVMType::TClassArray { depth, .. } => *depth,
            JVMType::TPrimitiveArray { depth, .. } => *depth,
            _ => 0,
        }
    }

    /// The element type of an array; any other type itself.
    pub fn strip_arrays(&self) -> (r: JVMType)
        ensures
            r@ == self@.strip_arrays(),
    {
        match self {
            JVMType::TClassArray { inner, .. } => JVMType::TClass(inner.clone()),
            JVMType::TPrimitiveArray { inner, .. } => JVMType::TPrimitive(*inner),
            _ => self.clone(),
        }
    }

    /// The class of a value of the type: the boxing class of a primitive,
    /// the class of a class type, none for an array.
    pub fn class(&self) -> (r: Option<ClassPath>)
        ensures
            match r {
                Some(c) => self@.class() == Some(c@),
                None => self@.class() is None,
            },
    {
        match self {
            JVMType::TPrimitive(primitive) => Some(primitive.class_path()),
            JVMType::TClass(inner) => Some(inner.clone()),
            _ => None,
        }
    }

    /// The keyword of a primitive type, none for any other type.
    pub fn primitive(&self) -> (r: Option<&'static str>)
        ensures
            match r {
                Some(name) => self@.primitive() == Some(name@),
                None => self@.primitive() is None,
            },
    {
        match self {
            JVMType::TPrimitive(p) => Some(p.name()),
            _ => None,
        }
    }
}

/// A type used as a specifier.
#[derive(Debug, Clone, PartialEq, Eq)]
pub struct TypeSpecifier(pub JVMType);

/// The signature of a field or method: the value or return type, and the
/// argument types in order (none for a field).
#[derive(Debug, Clone, PartialEq, Eq)]
pub struct Descriptor {
    pub value: JVMType,
    pub arguments: Vec<JVMType>,
}

/// The mathematical value of a [`Descriptor`].
pub struct DescriptorView {
    pub value: JVMTypeView,
    pub arguments: Seq<JVMTypeView>,
}

impl DescriptorView {
    /// The invariant of a descriptor: each of its types meets its own.
    pub open spec fn wf(self) -> bool {
        &&& self.value.wf()
        &&& forall|i: int| 0 <= i < self.arguments.len() ==> (#[trigger] self.arguments[i]).wf()
    }
}

/// The view of each type of `v`.
pub open spec fn types_view(v: Seq<JVMType>) -> Seq<JVMTypeView> {
    v.map_values(|t: JVMType| t@)
}

impl View for Descriptor {
    type V = DescriptorView;

    open spec fn view(&self) -> DescriptorView {
        DescriptorView { value: self.value@, arguments: types_view(self.arguments@) }
    }
}

/// A type whose first character was taken before `pos` ends at or after
/// `pos`, inside the input.
pub proof fn lemma_type_ends_after_start(c: char, s: Seq<u8>, pos: int)
    requires
        0 <= pos <= s.len(),
    ensures
        pos <= spec_read_type_from(c, s, pos).1 <= s.len(),
{
    if JVMPrimitive::spec_from_char(c) is None {
        if c == 'L' {
            lemma_reference_ends_after_start(s, pos, Seq::empty());
        } else if c == '[' {
            lemma_array_ends_after_start(s, pos, 1);
        }
    }
}

/// A class reference found by a scan from `pos` ends after `pos`.
pub proof fn lemma_reference_ends_after_start(s: Seq<u8>, pos: int, acc: Seq<char>)
    requires
        0 <= pos <= s.len(),
    ensures
        spec_scan_reference(s, pos, acc) matches Some(found) ==> pos < found.1 <= s.len(),
    decreases s.len() - pos,
{
    if pos < s.len() && byte_char(s[pos]) != ';' {
        lemma_reference_ends_after_start(s, pos + 1, acc.push(byte_char(s[pos])));
    }
}

/// An array type decoded at `pos` ends at or after `pos`, inside the input.
pub proof fn lemma_array_ends_after_start(s: Seq<u8>, pos: int, depth: int)
    requires
        0 <= pos <= s.len(),
    ensures
        pos <= spec_read_array(s, pos, depth).1 <= s.len(),
    decreases s.len() - pos,
{
    if pos < s.len() {
        let c = byte_char(s[pos]);
        if c == '[' {
            if depth < usize::MAX {
                lemma_array_ends_after_start(s, pos + 1, depth + 1);
            }
        } else if c == 'L' {
            lemma_reference_ends_after_start(s, pos + 1, Seq::empty());
        }
    }
}

/// An array type that is decoded after at least one bracket has at least one
/// dimension.
pub proof fn lemma_array_is_wf(s: Seq<u8>, pos: int, depth: int)
    requires
        1 <= depth <= usize::MAX,
    ensures
        spec_read_array(s, pos, depth).0 matches Ok(t) ==> t.wf(),
    decreases s.len() - pos,
{
    if 0 <= pos < s.len() && byte_char(s[pos]) == '[' && depth < usize::MAX {
        lemma_array_is_wf(s, pos + 1, depth + 1);
    }
}

/// Every type that decodes meets the invariant of types: the depth of a
/// decoded array is at least 1.
pub proof fn lemma_decoded_type_is_wf(s: Seq<u8>, pos: int, prefix: Option<char>)
    ensures
        spec_read_type(s, pos, prefix).0 matches Ok(t) ==> t.wf(),
{
    match prefix {
        Some(c) => {
            lemma_array_is_wf(s, pos, 1);
        },
        None => {
            if 0 <= pos < s.len() {
                lemma_array_is_wf(s, pos + 1, 1);
            }
        },
    }
}

/// Every descriptor that decodes meets the invariant of descriptors, from
/// any position of its argument list on.
pub proof fn lemma_arguments_are_wf(s: Seq<u8>, pos: int, arguments: Seq<JVMTypeView>)
    requires
        forall|i: int| 0 <= i < arguments.len() ==> (#[trigger] arguments[i]).wf(),
    ensures
        spec_read_arguments(s, pos, arguments).0 matches Ok(d) ==> d.wf(),
    decreases s.len() - pos,
{
    if 0 <= pos < s.len() {
        let c = byte_char(s[pos]);
        if c == ')' {
            lemma_decoded_type_is_wf(s, pos + 1, None);
        } else {
            lemma_decoded_type_is_wf(s, pos + 1, Some(c));
            lemma_type_ends_after_start(c, s, pos + 1);
            let step = spec_read_type_from(c, s, pos + 1);
            if step.0 is Ok {
                let next = arguments.push(step.0->Ok_0);
                assert forall|i: int| 0 <= i < next.len() implies (#[trigger] next[i]).wf() by {
                    if i < arguments.len() {
                        assert(next[i] == arguments[i]);
                    }
                }
                lemma_arguments_are_wf(s, step.1, next);
            }
        }
    }
}

/// Every descriptor that decodes meets the invariant of descriptors.
pub proof fn lemma_decoded_descriptor_is_wf(s: Seq<u8>, pos: int)
    ensures
        spec_read_descriptor(s, pos).0 matches Ok(d) ==> d.wf(),
{
    if 0 <= pos < s.len() {
        let c = byte_char(s[pos]);
        if c == '(' {
            lemma_arguments_are_wf(s, pos + 1, Seq::empty());
        } else {
            lemma_decoded_type_is_wf(s, pos + 1, Some(c));
        }
    }
}

/// Outcome and next position of decoding the argument list and return type
/// of a method descriptor at `pos`, after the opening `(` and the arguments
/// `arguments`: types follow until a `)`, then exactly one return type.
pub open spec fn spec_read_arguments(s: Seq<u8>, pos: int, arguments: Seq<JVMTypeView>) -> (
    Result<DescriptorView, JVMTypeErrorView>,
    int,
)
    decreases s.len() - pos,
{
    match spec_read_u8(s, pos) {
        (Err(e), p) => (Err(JVMTypeErrorView::IOError(e)), p),
        (Ok(b), p) => if byte_char(b) == ')' {
            match spec_read_type(s, p, None) {
                (Err(e), q) => (Err(e), q),
                (Ok(value), q) => (Ok(DescriptorView { value, arguments }), q),
            }
        } else {
            match spec_read_type_from(byte_char(b), s, p) {
                (Err(e), q) => (Err(e), q),
                (Ok(argument), q) => {
                    proof {
                        lemma_type_ends_after_start(byte_char(b), s, p);
                    }
                    spec_read_arguments(s, q, arguments.push(argument))
                },
            }
        },
    }
}

/// Outcome and next position of decoding a descriptor at `pos`: a leading
/// `(` opens a method descriptor, anything else is the single type of a
/// field descriptor.
pub open spec fn spec_read_descriptor(s: Seq<u8>, pos: int) -> (
    Result<DescriptorView, JVMTypeErrorView>,
    int,
) {
    match spec_read_u8(s, pos) {
        (Err(e), p) => (Err(JVMTypeErrorView::IOError(e)), p),
        (Ok(b), p) => if byte_char(b) == '(' {
            spec_read_arguments(s, p, Seq::empty())
        } else {
            match spec_read_type_from(byte_char(b), s, p) {
                (Err(e), q) => (Err(e), q),
                (Ok(value), q) => (Ok(DescriptorView { value, arguments: Seq::empty() }), q),
            }
        },
    }
}

/// The descriptor that the text `value` spells: the descriptor decoded from
/// the start of its UTF-8 bytes.
pub open spec fn spec_parse_descriptor(value: Seq<char>) -> Result<
    DescriptorView,
    JVMTypeErrorView,
> {
    spec_read_descriptor(vstd::utf8::encode_utf8(value), 0).0
}

impl Descriptor {
    /// Decodes a field or method descriptor from the cursor.
    pub fn read_from(r: &mut ByteCursor) -> (out: Result<Descriptor, JVMTypeError>)
        ensures
            final(r).bytes() == old(r).bytes(),
            (result_view(out), final(r).position()) == spec_read_descriptor(
                old(r).bytes(),
                old(r).position(),
            ),
            out matches Ok(d) ==> d@.wf(),
    {
        proof {
            lemma_decoded_descriptor_is_wf(r.bytes(), r.position());
        }
        let ghost s = r.bytes();
        let first = match r.read_u8() {
            Ok(b) => b as char,
            Err(e) => return Err(JVMTypeError::IOError(e)),
        };
        if first == '(' {
            let mut arguments: Vec<JVMType> = Vec::new();
            assert(types_view(arguments@) =~= Seq::empty());
            loop
                invariant
                    r.bytes() == s,
                    s == old(r).bytes(),
                    spec_read_descriptor(old(r).bytes(), old(r).position()) == spec_read_arguments(
                        s,
                        r.position(),
                        types_view(arguments@),
                    ),
                    spec_read_descriptor(old(r).bytes(), old(r).position()).0 matches Ok(d)
                        ==> d.wf(),
                decreases r.remaining(),
            {
                let next = match r.read_u8() {
                    Ok(b) => b as char,
                    Err(e) => return Err(JVMTypeError::IOError(e)),
                };
                if next == ')' {
                    return match JVMType::read_from(r) {
                        Ok(value) => Ok(Descriptor { value, arguments }),
                        Err(e) => Err(e),
                    };
                }
                proof {
                    lemma_type_ends_after_start(next, s, r.position());
                }
                let jvmt = match JVMType::read_from_with_prefix(r, Some(next)) {
                    Ok(t) => t,
                    Err(e) => return Err(e),
                };
                let ghost before = arguments@;
                arguments.push(jvmt);
                assert(types_view(arguments@) =~= types_view(before).push(jvmt@));
            }
        } else {
            match JVMType::read_from_with_prefix(r, Some(first)) {
                Ok(value) => {
                    let arguments: Vec<JVMType> = Vec::new();
                    assert(types_view(arguments@) =~= Seq::empty());
                    Ok(Descriptor { value, arguments })
                },
                Err(e) => Err(e),
            }
        }
    }

    /// Parses the descriptor that `value` spells; what follows it is ignored.
    pub fn parse(value: &str) -> (out: Result<Descriptor, JVMTypeError>)
        ensures
            result_view(out) == spec_parse_descriptor(value@),
            out matches Ok(d) ==> d@.wf(),
    {
        let mut c = ByteCursor::new(value.as_bytes());
        Descriptor::read_from(&mut c)
    }

    /// Parses the descriptor that `value` spells; what follows it is ignored.
    pub fn from_string(value: String) -> (out: Result<Descriptor, JVMTypeError>)
        ensures
            result_view(out) == spec_parse_descriptor(value@),
            out matches Ok(d) ==> d@.wf(),
    {
        Descriptor::parse(value.as_str())
    }
}

} // verus!
