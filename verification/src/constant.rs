//! Constant pool codec: the tagged constants of a class file and the indexed
//! table that holds them.

use crate::cursor::{
    be_u16_at, fits, ok_view, spec_read_bytes, spec_read_i32, spec_read_i64, spec_read_u16, spec_read_u32,
    spec_read_u64, spec_read_u8, ByteCursor, ReadError,
};
use crate::error::{ConstantError, ConstantPoolError};
use crate::text::string_from_utf8;
use std::collections::HashMap;
use vstd::prelude::*;
use vstd::utf8::*;

verus! {

broadcast use vstd::std_specs::hash::group_hash_axioms;

/// The kind of a method handle, as stored in a `MethodHandle` constant.
#[derive(Debug, Copy, Clone, PartialEq, Eq, Hash, Structural)]
pub enum ReferenceKind {
    GetField,
    GetStatic,
    PutField,
    PutStatic,
    InvokeVirtual,
    InvokeStatic,
    InvokeSpecial,
    NewInvokeSpecial,
    InvokeInterface,
}

impl ReferenceKind {
    /// The kind with wire value `value`, if there is one.
    pub open spec fn spec_from_u8(value: u8) -> Option<ReferenceKind> {
        if value == 1 {
            Some(ReferenceKind::GetField)
        } else if value == 2 {
            Some(ReferenceKind::GetStatic)
        } else if value == 3 {
            Some(ReferenceKind::PutField)
        } else if value == 4 {
            Some(ReferenceKind::PutStatic)
        } else if value == 5 {
            Some(ReferenceKind::InvokeVirtual)
        } else if value == 6 {
            Some(ReferenceKind::InvokeStatic)
        } else if value == 7 {
            Some(ReferenceKind::InvokeSpecial)
        } else if value == 8 {
            Some(ReferenceKind::NewInvokeSpecial)
        } else if value == 9 {
            Some(ReferenceKind::InvokeInterface)
        } else {
            None
        }
    }

    /// The wire value of the kind.
    pub open spec fn spec_to_u8(self) -> u8 {
        match self {
            ReferenceKind::GetField => 1,
            ReferenceKind::GetStatic => 2,
            ReferenceKind::PutField => 3,
            ReferenceKind::PutStatic => 4,
            ReferenceKind::InvokeVirtual => 5,
            ReferenceKind::InvokeStatic => 6,
            ReferenceKind::InvokeSpecial => 7,
            ReferenceKind::NewInvokeSpecial => 8,
            ReferenceKind::InvokeInterface => 9,
        }
    }

    /// The kind with wire value `value`; `None` for a value outside `1..=9`.
    pub fn from_u8(value: u8) -> (r: Option<ReferenceKind>)
        ensures
            r == Self::spec_from_u8(value),
            r is Some <==> 1 <= value <= 9,
            r matches Some(k) ==> k.spec_to_u8() == value,
    {
        match value {
            1 => Some(ReferenceKind::GetField),
            2 => Some(ReferenceKind::GetStatic),
            3 => Some(ReferenceKind::PutField),
            4 => Some(ReferenceKind::PutStatic),
            5 => Some(ReferenceKind::InvokeVirtual),
            6 => Some(ReferenceKind::InvokeStatic),
            7 => Some(ReferenceKind::InvokeSpecial),
            8 => Some(ReferenceKind::NewInvokeSpecial),
            9 => Some(ReferenceKind::InvokeInterface),
            _ => None,
        }
    }

    /// The wire value of the kind.
    pub fn to_u8(self) -> (r: u8)
        ensures
            r == self.spec_to_u8(),
            Self::spec_from_u8(r) == Some(self),
    {
        match self {
            ReferenceKind::GetField => 1,
            ReferenceKind::GetStatic => 2,
            ReferenceKind::PutField => 3,
            ReferenceKind::PutStatic => 4,
            ReferenceKind::InvokeVirtual => 5,
            ReferenceKind::InvokeStatic => 6,
            ReferenceKind::InvokeSpecial => 7,
            ReferenceKind::NewInvokeSpecial => 8,
            ReferenceKind::InvokeInterface => 9,
        }
    }
}

/// The tag byte that introduces a constant-pool entry.
#[derive(Debug, Copy, Clone, PartialEq, Eq, Hash, Structural)]
pub enum ConstantTag {
    Utf8,
    Data,
    Integer,
    Float,
    Long,
    Double,
    Class,
    String,
    Fieldref,
    Methodref,
    InterfaceMethodref,
    NameAndType,
    MethodHandle,
    MethodType,
    Dynamic,
    InvokeDynamic,
    Module,
    Package,
}

impl ConstantTag {
    /// The tag with wire value `value`, if there is one.
    pub open spec fn spec_from_u8(value: u8) -> Option<ConstantTag> {
        if value == 1 {
            Some(ConstantTag::Utf8)
        } else if value == 2 {
            Some(ConstantTag::Data)
        } else if value == 3 {
            Some(ConstantTag::Integer)
        } else if value == 4 {
            Some(ConstantTag::Float)
        } else if value == 5 {
            Some(ConstantTag::Long)
        } else if value == 6 {
            Some(ConstantTag::Double)
        } else if value == 7 {
            Some(ConstantTag::Class)
        } else if value == 8 {
            Some(ConstantTag::String)
        } else if value == 9 {
            Some(ConstantTag::Fieldref)
        } else if value == 10 {
            Some(ConstantTag::Methodref)
        } else if value == 11 {
            Some(ConstantTag::InterfaceMethodref)
        } else if value == 12 {
            Some(ConstantTag::NameAndType)
        } else if value == 15 {
            Some(ConstantTag::MethodHandle)
        } else if value == 16 {
            Some(ConstantTag::MethodType)
        } else if value == 17 {
            Some(ConstantTag::Dynamic)
        } else if value == 18 {
            Some(ConstantTag::InvokeDynamic)
        } else if value == 19 {
            Some(ConstantTag::Module)
        } else if value == 20 {
            Some(ConstantTag::Package)
        } else {
            None
        }
    }

    /// The wire value of the tag.
    pub open spec fn spec_to_u8(self) -> u8 {
        match self {
            ConstantTag::Utf8 => 1,
            ConstantTag::Data => 2,
            ConstantTag::Integer => 3,
            ConstantTag::Float => 4,
            ConstantTag::Long => 5,
            ConstantTag::Double => 6,
            ConstantTag::Class => 7,
            ConstantTag::String => 8,
            ConstantTag::Fieldref => 9,
            ConstantTag::Methodref => 10,
            ConstantTag::InterfaceMethodref => 11,
            ConstantTag::NameAndType => 12,
            ConstantTag::MethodHandle => 15,
            ConstantTag::MethodType => 16,
            ConstantTag::Dynamic => 17,
            ConstantTag::InvokeDynamic => 18,
            ConstantTag::Module => 19,
            ConstantTag::Package => 20,
        }
    }

    /// The number of pool slots a constant with this tag occupies.
    pub open spec fn spec_length(self) -> int {
        match self {
            ConstantTag::Long => 2,
            ConstantTag::Double => 2,
            _ => 1,
        }
    }

    /// The tag with wire value `value`; `None` for an unassigned value.
    pub fn from_u8(value: u8) -> (r: Option<ConstantTag>)
        ensures
            r == Self::spec_from_u8(value),
            r is Some <==> (1 <= value <= 12 || 15 <= value <= 20),
            r matches Some(t) ==> t.spec_to_u8() == value,
    {
        match value {
            1 => Some(ConstantTag::Utf8),
            2 => Some(ConstantTag::Data),
            3 => Some(ConstantTag::Integer),
            4 => Some(ConstantTag::Float),
            5 => Some(ConstantTag::Long),
            6 => Some(ConstantTag::Double),
            7 => Some(ConstantTag::Class),
            8 => Some(ConstantTag::String),
            9 => Some(ConstantTag::Fieldref),
            10 => Some(ConstantTag::Methodref),
            11 => Some(ConstantTag::InterfaceMethodref),
            12 => Some(ConstantTag::NameAndType),
            15 => Some(ConstantTag::MethodHandle),
            16 => Some(ConstantTag::MethodType),
            17 => Some(ConstantTag::Dynamic),
            18 => Some(ConstantTag::InvokeDynamic),
            19 => Some(ConstantTag::Module),
            20 => Some(ConstantTag::Package),
            _ => None,
        }
    }

    /// The wire value of the tag.
    pub fn to_u8(self) -> (r: u8)
        ensures
            r == self.spec_to_u8(),
            Self::spec_from_u8(r) == Some(self),
    {
        match self {
            ConstantTag::Utf8 => 1,
            ConstantTag::Data => 2,
            ConstantTag::Integer => 3,
            ConstantTag::Float => 4,
            ConstantTag::Long => 5,
            ConstantTag::Double => 6,
            ConstantTag::Class => 7,
            ConstantTag::String => 8,
            ConstantTag::Fieldref => 9,
            ConstantTag::Methodref => 10,
            ConstantTag::InterfaceMethodref => 11,
            ConstantTag::NameAndType => 12,
            ConstantTag::MethodHandle => 15,
            ConstantTag::MethodType => 16,
            ConstantTag::Dynamic => 17,
            ConstantTag::InvokeDynamic => 18,
            ConstantTag::Module => 19,
            ConstantTag::Package => 20,
        }
    }

    /// The number of pool slots a constant with this tag occupies: two for
    /// the 64-bit numeric constants, one for every other.
    pub fn length(&self) -> (r: usize)
        ensures
            r == self.spec_length(),
            r == 2 <==> (*self == ConstantTag::Long || *self == ConstantTag::Double),
            r == 1 || r == 2,
    {
        match self {
            ConstantTag::Long => 2,
            ConstantTag::Double => 2,
            _ => 1,
        }
    }
}

/// One entry of the constant pool. References to other entries are indices,
/// never nested constants. The floating-point constants hold their IEEE 754
/// bit patterns, so two of them are equal exactly when their bits are.
#[derive(Debug, Clone, PartialEq, Eq, Hash)]
pub enum Constant {
    Class { name_index: u16 },
    Fieldref { class_index: u16, name_and_type_info: u16 },
    Methodref { class_index: u16, name_and_type_info: u16 },
    InterfaceMethodref { class_index: u16, name_and_type_info: u16 },
    String { string_index: u16 },
    Integer { value: i32 },
    Float { bits: u32 },
    Long { value: i64 },
    Double { bits: u64 },
    NameAndType { name_index: u16, descriptor_index: u16 },
    Utf8 { value: String },
    /// An opaque binary blob.
    Data { content: Vec<u8> },
    MethodHandle { reference_kind: ReferenceKind, reference_index: u16 },
    MethodType { descriptor_index: u16 },
    Dynamic { bootstrap_method_attr_index: u16, name_and_type_index: u16 },
    InvokeDynamic { bootstrap_method_attr_index: u16, name_and_type_index: u16 },
    Module { name_index: u16 },
    Package { name_index: u16 },
}

/// The mathematical value of a [`Constant`].
pub enum ConstantView {
    Class { name_index: u16 },
    Fieldref { class_index: u16, name_and_type_info: u16 },
    Methodref { class_index: u16, name_and_type_info: u16 },
    InterfaceMethodref { class_index: u16, name_and_type_info: u16 },
    String { string_index: u16 },
    Integer { value: i32 },
    Float { bits: u32 },
    Long { value: i64 },
    Double { bits: u64 },
    NameAndType { name_index: u16, descriptor_index: u16 },
    Utf8 { value: Seq<char> },
    Data { content: Seq<u8> },
    MethodHandle { reference_kind: ReferenceKind, reference_index: u16 },
    MethodType { descriptor_index: u16 },
    Dynamic { bootstrap_method_attr_index: u16, name_and_type_index: u16 },
    InvokeDynamic { bootstrap_method_attr_index: u16, name_and_type_index: u16 },
    Module { name_index: u16 },
    Package { name_index: u16 },
}

impl ConstantView {
    /// The tag of the constant; it is determined by the variant alone.
    pub open spec fn tag(self) -> ConstantTag {
        match self {
            ConstantView::Utf8 { .. } => ConstantTag::Utf8,
            ConstantView::Data { .. } => ConstantTag::Data,
            ConstantView::Integer { .. } => ConstantTag::Integer,
            ConstantView::Float { .. } => ConstantTag::Float,
            ConstantView::Long { .. } => ConstantTag::Long,
            ConstantView::Double { .. } => ConstantTag::Double,
            ConstantView::Class { .. } => ConstantTag::Class,
            ConstantView::String { .. } => ConstantTag::String,
            ConstantView::Fieldref { .. } => ConstantTag::Fieldref,
            ConstantView::Methodref { .. } => ConstantTag::Methodref,
            ConstantView::InterfaceMethodref { .. } => ConstantTag::InterfaceMethodref,
            ConstantView::NameAndType { .. } => ConstantTag::NameAndType,
            ConstantView::MethodHandle { .. } => ConstantTag::MethodHandle,
            ConstantView::MethodType { .. } => ConstantTag::MethodType,
            ConstantView::Dynamic { .. } => ConstantTag::Dynamic,
            ConstantView::InvokeDynamic { .. } => ConstantTag::InvokeDynamic,
            ConstantView::Module { .. } => ConstantTag::Module,
            ConstantView::Package { .. } => ConstantTag::Package,
        }
    }

    /// The number of pool slots the constant occupies.
    pub open spec fn width(self) -> int {
        self.tag().spec_length()
    }
}

impl View for Constant {
    type V = ConstantView;

    open spec fn view(&self) -> ConstantView {
        match self {
            Constant::Class { name_index } => ConstantView::Class { name_index: *name_index },
            Constant::Fieldref { class_index, name_and_type_info } => ConstantView::Fieldref {
                class_index: *class_index,
                name_and_type_info: *name_and_type_info,
            },
            Constant::Methodref { class_index, name_and_type_info } => ConstantView::Methodref {
                class_index: *class_index,
                name_and_type_info: *name_and_type_info,
            },
            Constant::InterfaceMethodref {
                class_index,
                name_and_type_info,
            } => ConstantView::InterfaceMethodref {
                class_index: *class_index,
                name_and_type_info: *name_and_type_info,
            },
            Constant::String { string_index } => ConstantView::String {
                string_index: *string_index,
            },
            Constant::Integer { value } => ConstantView::Integer { value: *value },
            Constant::Float { bits } => ConstantView::Float { bits: *bits },
            Constant::Long { value } => ConstantView::Long { value: *value },
            Constant::Double { bits } => ConstantView::Double { bits: *bits },
            Constant::NameAndType { name_index, descriptor_index } => ConstantView::NameAndType {
                name_index: *name_index,
                descriptor_index: *descriptor_index,
            },
            Constant::Utf8 { value } => ConstantView::Utf8 { value: value@ },
            Constant::Data { content } => ConstantView::Data { content: content@ },
            Constant::MethodHandle { reference_kind, reference_index } => ConstantView::MethodHandle {
                reference_kind: *reference_kind,
                reference_index: *reference_index,
            },
            Constant::MethodType { descriptor_index } => ConstantView::MethodType {
                descriptor_index: *descriptor_index,
            },
            Constant::Dynamic {
                bootstrap_method_attr_index,
                name_and_type_index,
            } => ConstantView::Dynamic {
                bootstrap_method_attr_index: *bootstrap_method_attr_index,
                name_and_type_index: *name_and_type_index,
            },
            Constant::InvokeDynamic {
                bootstrap_method_attr_index,
                name_and_type_index,
            } => ConstantView::InvokeDynamic {
                bootstrap_method_attr_index: *bootstrap_method_attr_index,
                name_and_type_index: *name_and_type_index,
            },
            Constant::Module { name_index } => ConstantView::Module { name_index: *name_index },
            Constant::Package { name_index } => ConstantView::Package { name_index: *name_index },
        }
    }
}

/// Outcome and next position of reading a length-prefixed byte string at
/// `pos`: a big-endian `u16` length, then that many bytes.
pub open spec fn spec_read_prefixed(s: Seq<u8>, pos: int) -> (Result<Seq<u8>, ReadError>, int) {
    match spec_read_u16(s, pos) {
        (Err(e), p) => (Err(e), p),
        (Ok(len), p) => spec_read_bytes(s, p, len as int),
    }
}

/// Outcome and next position of reading two consecutive big-endian `u16`
/// values at `pos`.
pub open spec fn spec_read_u16_pair(s: Seq<u8>, pos: int) -> (Result<(u16, u16), ReadError>, int) {
    if fits(s, pos, 4) {
        (Ok((be_u16_at(s, pos), be_u16_at(s, pos + 2))), pos + 4)
    } else {
        (Err(ReadError::UnexpectedEof), s.len() as int)
    }
}

/// Outcome and next position of decoding one constant at `pos`: a tag byte,
/// then the payload that the tag calls for.
pub open spec fn spec_read_constant(s: Seq<u8>, pos: int) -> (
    Result<ConstantView, ConstantError>,
    int,
) {
    match spec_read_u8(s, pos) {
        (Err(e), p) => (Err(ConstantError::IOError(e)), p),
        (Ok(t), p) => match ConstantTag::spec_from_u8(t) {
            None => (Err(ConstantError::UnsupportedTag { tag: t }), p),
            Some(tag) => spec_read_payload(tag, s, p),
        },
    }
}

/// Outcome and next position of decoding the payload of a constant with tag
/// `tag` at `pos`.
pub open spec fn spec_read_payload(tag: ConstantTag, s: Seq<u8>, pos: int) -> (
    Result<ConstantView, ConstantError>,
    int,
) {
    match tag {
        ConstantTag::Utf8 => match spec_read_prefixed(s, pos) {
            (Err(e), p) => (Err(ConstantError::IOError(e)), p),
            (Ok(bytes), p) => if valid_utf8(bytes) {
                (Ok(ConstantView::Utf8 { value: decode_utf8(bytes) }), p)
            } else {
                (Err(ConstantError::UTF8ParseError), p)
            },
        },
        ConstantTag::Data => match spec_read_prefixed(s, pos) {
            (Err(e), p) => (Err(ConstantError::IOError(e)), p),
            (Ok(bytes), p) => (Ok(ConstantView::Data { content: bytes }), p),
        },
        ConstantTag::Integer => match spec_read_i32(s, pos) {
            (Err(e), p) => (Err(ConstantError::IOError(e)), p),
            (Ok(value), p) => (Ok(ConstantView::Integer { value }), p),
        },
        ConstantTag::Float => match spec_read_u32(s, pos) {
            (Err(e), p) => (Err(ConstantError::IOError(e)), p),
            (Ok(bits), p) => (Ok(ConstantView::Float { bits }), p),
        },
        ConstantTag::Long => match spec_read_i64(s, pos) {
            (Err(e), p) => (Err(ConstantError::IOError(e)), p),
            (Ok(value), p) => (Ok(ConstantView::Long { value }), p),
        },
        ConstantTag::Double => match spec_read_u64(s, pos) {
            (Err(e), p) => (Err(ConstantError::IOError(e)), p),
            (Ok(bits), p) => (Ok(ConstantView::Double { bits }), p),
        },
        ConstantTag::Class => match spec_read_u16(s, pos) {
            (Err(e), p) => (Err(ConstantError::IOError(e)), p),
            (Ok(name_index), p) => (Ok(ConstantView::Class { name_index }), p),
        },
        ConstantTag::String => match spec_read_u16(s, pos) {
            (Err(e), p) => (Err(ConstantError::IOError(e)), p),
            (Ok(string_index), p) => (Ok(ConstantView::String { string_index }), p),
        },
        ConstantTag::Fieldref => match spec_read_u16_pair(s, pos) {
            (Err(e), p) => (Err(ConstantError::IOError(e)), p),
            (Ok(v), p) => (
                Ok(ConstantView::Fieldref { class_index: v.0, name_and_type_info: v.1 }),
                p,
            ),
        },
        ConstantTag::Methodref => match spec_read_u16_pair(s, pos) {
            (Err(e), p) => (Err(ConstantError::IOError(e)), p),
            (Ok(v), p) => (
                Ok(ConstantView::Methodref { class_index: v.0, name_and_type_info: v.1 }),
                p,
            ),
        },
        ConstantTag::InterfaceMethodref => match spec_read_u16_pair(s, pos) {
            (Err(e), p) => (Err(ConstantError::IOError(e)), p),
            (Ok(v), p) => (
                Ok(ConstantView::InterfaceMethodref { class_index: v.0, name_and_type_info: v.1 }),
                p,
            ),
        },
        ConstantTag::NameAndType => match spec_read_u16_pair(s, pos) {
            (Err(e), p) => (Err(ConstantError::IOError(e)), p),
            (Ok(v), p) => (
                Ok(ConstantView::NameAndType { name_index: v.0, descriptor_index: v.1 }),
                p,
            ),
        },
        ConstantTag::MethodHandle => match spec_read_u8(s, pos) {
            (Err(e), p) => (Err(ConstantError::IOError(e)), p),
            (Ok(kind), p) => match ReferenceKind::spec_from_u8(kind) {
                None => (Err(ConstantError::UnsupportedReferenceKind { value: kind }), p),
                Some(reference_kind) => match spec_read_u16(s, p) {
                    (Err(e), q) => (Err(ConstantError::IOError(e)), q),
                    (Ok(reference_index), q) => (
                        Ok(ConstantView::MethodHandle { reference_kind, reference_index }),
                        q,
                    ),
                },
            },
        },
        ConstantTag::MethodType => match spec_read_u16(s, pos) {
            (Err(e), p) => (Err(ConstantError::IOError(e)), p),
            (Ok(descriptor_index), p) => (Ok(ConstantView::MethodType { descriptor_index }), p),
        },
        ConstantTag::Dynamic => match spec_read_u16_pair(s, pos) {
            (Err(e), p) => (Err(ConstantError::IOError(e)), p),
            (Ok(v), p) => (
                Ok(
                    ConstantView::Dynamic {
                        bootstrap_method_attr_index: v.0,
                        name_and_type_index: v.1,
                    },
                ),
                p,
            ),
        },
        ConstantTag::InvokeDynamic => match spec_read_u16_pair(s, pos) {
            (Err(e), p) => (Err(ConstantError::IOError(e)), p),
            (Ok(v), p) => (
                Ok(
                    ConstantView::InvokeDynamic {
                        bootstrap_method_attr_index: v.0,
                        name_and_type_index: v.1,
                    },
                ),
                p,
            ),
        },
        ConstantTag::Module => match spec_read_u16(s, pos) {
            (Err(e), p) => (Err(ConstantError::IOError(e)), p),
            (Ok(name_index), p) => (Ok(ConstantView::Module { name_index }), p),
        },
        ConstantTag::Package => match spec_read_u16(s, pos) {
            (Err(e), p) => (Err(ConstantError::IOError(e)), p),
            (Ok(name_index), p) => (Ok(ConstantView::Package { name_index }), p),
        },
    }
}

/// Reads a length-prefixed byte string: a big-endian `u16` length, then that
/// many bytes.
pub fn read_prefixed(r: &mut ByteCursor) -> (out: Result<Vec<u8>, ReadError>)
    ensures
        final(r).bytes() == old(r).bytes(),
        (ok_view(out), final(r).position()) == spec_read_prefixed(
            old(r).bytes(),
            old(r).position(),
        ),
{
    let len = match r.read_u16() {
        Ok(len) => len,
        Err(e) => return Err(e),
    };
    r.read_byte_vec(len as usize)
}

/// Reads two consecutive big-endian `u16` values.
pub fn read_u16_pair(r: &mut ByteCursor) -> (out: Result<(u16, u16), ReadError>)
    ensures
        final(r).bytes() == old(r).bytes(),
        (out, final(r).position()) == spec_read_u16_pair(old(r).bytes(), old(r).position()),
{
    let a = match r.read_u16() {
        Ok(a) => a,
        Err(e) => return Err(e),
    };
    let b = match r.read_u16() {
        Ok(b) => b,
        Err(e) => return Err(e),
    };
    Ok((a, b))
}

impl Constant {
    /// The tag of the constant; it is determined by the variant alone.
    pub fn tag(&self) -> (t: ConstantTag)
        ensures
            t == self@.tag(),
    {
        match self {
            Constant::Utf8 { .. } => ConstantTag::Utf8,
            Constant::Data { .. } => ConstantTag::Data,
            Constant::Integer { .. } => ConstantTag::Integer,
            Constant::Float { .. } => ConstantTag::Float,
            Constant::Long { .. } => ConstantTag::Long,
            Constant::Double { .. } => ConstantTag::Double,
            Constant::Class { .. } => ConstantTag::Class,
            Constant::String { .. } => ConstantTag::String,
            Constant::Fieldref { .. } => ConstantTag::Fieldref,
            Constant::Methodref { .. } => ConstantTag::Methodref,
            Constant::InterfaceMethodref { .. } => ConstantTag::InterfaceMethodref,
            Constant::NameAndType { .. } => ConstantTag::NameAndType,
            Constant::MethodHandle { .. } => ConstantTag::MethodHandle,
            Constant::MethodType { .. } => ConstantTag::MethodType,
            Constant::Dynamic { .. } => ConstantTag::Dynamic,
            Constant::InvokeDynamic { .. } => ConstantTag::InvokeDynamic,
            Constant::Module { .. } => ConstantTag::Module,
            Constant::Package { .. } => ConstantTag::Package,
        }
    }

    /// Decodes one constant: a tag byte, then the payload that the tag calls
    /// for. Fails on an unassigned tag, an unassigned method-handle kind,
    /// text that is not UTF-8, and on a buffer that ends early.
    pub fn read_from(r: &mut ByteCursor) -> (out: Result<Constant, ConstantError>)
        ensures
            final(r).bytes() == old(r).bytes(),
            (ok_view(out), final(r).position()) == spec_read_constant(
                old(r).bytes(),
                old(r).position(),
            ),
    {
        let byte = match r.read_u8() {
            Ok(b) => b,
            Err(e) => return Err(ConstantError::IOError(e)),
        };
        let tag = match ConstantTag::from_u8(byte) {
            Some(tag) => tag,
            None => return Err(ConstantError::UnsupportedTag { tag: byte }),
        };
        match tag {
            ConstantTag::Utf8 => {
                let buff = match read_prefixed(r) {
                    Ok(b) => b,
                    Err(e) => return Err(ConstantError::IOError(e)),
                };
                match string_from_utf8(buff) {
                    Some(value) => Ok(Constant::Utf8 { value }),
                    None => Err(ConstantError::UTF8ParseError),
                }
            },
            ConstantTag::Data => match read_prefixed(r) {
                Ok(content) => Ok(Constant::Data { content }),
                Err(e) => Err(ConstantError::IOError(e)),
            },
            ConstantTag::Integer => match r.read_i32() {
                Ok(value) => Ok(Constant::Integer { value }),
                Err(e) => Err(ConstantError::IOError(e)),
            },
            ConstantTag::Float => match r.read_u32() {
                Ok(bits) => Ok(Constant::Float { bits }),
                Err(e) => Err(ConstantError::IOError(e)),
            },
            ConstantTag::Long => match r.read_i64() {
                Ok(value) => Ok(Constant::Long { value }),
                Err(e) => Err(ConstantError::IOError(e)),
            },
            ConstantTag::Double => match r.read_u64() {
                Ok(bits) => Ok(Constant::Double { bits }),
                Err(e) => Err(ConstantError::IOError(e)),
            },
            ConstantTag::Class => match r.read_u16() {
                Ok(name_index) => Ok(Constant::Class { name_index }),
                Err(e) => Err(ConstantError::IOError(e)),
            },
            ConstantTag::String => match r.read_u16() {
                Ok(string_index) => Ok(Constant::String { string_index }),
                Err(e) => Err(ConstantError::IOError(e)),
            },
            ConstantTag::Fieldref => match read_u16_pair(r) {
                Ok(v) => Ok(Constant::Fieldref { class_index: v.0, name_and_type_info: v.1 }),
                Err(e) => Err(ConstantError::IOError(e)),
            },
            ConstantTag::Methodref => match read_u16_pair(r) {
                Ok(v) => Ok(Constant::Methodref { class_index: v.0, name_and_type_info: v.1 }),
                Err(e) => Err(ConstantError::IOError(e)),
            },
            ConstantTag::InterfaceMethodref => match read_u16_pair(r) {
                Ok(v) => Ok(
                    Constant::InterfaceMethodref { class_index: v.0, name_and_type_info: v.1 },
                ),
                Err(e) => Err(ConstantError::IOError(e)),
            },
            ConstantTag::NameAndType => match read_u16_pair(r) {
                Ok(v) => Ok(Constant::NameAndType { name_index: v.0, descriptor_index: v.1 }),
                Err(e) => Err(ConstantError::IOError(e)),
            },
            ConstantTag::MethodHandle => {
                let kind = match r.read_u8() {
                    Ok(k) => k,
                    Err(e) => return Err(ConstantError::IOError(e)),
                };
                let reference_kind = match ReferenceKind::from_u8(kind) {
                    Some(k) => k,
                    None => return Err(ConstantError::UnsupportedReferenceKind { value: kind }),
                };
                match r.read_u16() {
                    Ok(reference_index) => Ok(
                        Constant::MethodHandle { reference_kind, reference_index },
                    ),
                    Err(e) => Err(ConstantError::IOError(e)),
                }
            },
            ConstantTag::MethodType => match r.read_u16() {
                Ok(descriptor_index) => Ok(Constant::MethodType { descriptor_index }),
                Err(e) => Err(ConstantError::IOError(e)),
            },
            ConstantTag::Dynamic => match read_u16_pair(r) {
                Ok(v) => Ok(
                    Constant::Dynamic {
                        bootstrap_method_attr_index: v.0,
                        name_and_type_index: v.1,
                    },
                ),
                Err(e) => Err(ConstantError::IOError(e)),
            },
            ConstantTag::InvokeDynamic => match read_u16_pair(r) {
                Ok(v) => Ok(
                    Constant::InvokeDynamic {
                        bootstrap_method_attr_index: v.0,
                        name_and_type_index: v.1,
                    },
                ),
                Err(e) => Err(ConstantError::IOError(e)),
            },
            ConstantTag::Module => match r.read_u16() {
                Ok(name_index) => Ok(Constant::Module { name_index }),
                Err(e) => Err(ConstantError::IOError(e)),
            },
            ConstantTag::Package => match r.read_u16() {
                Ok(name_index) => Ok(Constant::Package { name_index }),
                Err(e) => Err(ConstantError::IOError(e)),
            },
        }
    }
}

/// The mathematical value of a [`ConstantPool`]: which constant stands at
/// which slot, and the running size (the slot the next constant will take).
pub struct ConstantPoolView {
    pub members: Map<int, ConstantView>,
    pub size: int,
}

impl ConstantPoolView {
    /// The pool before any insertion: nothing stored, slot 1 next.
    pub open spec fn empty() -> ConstantPoolView {
        ConstantPoolView { members: Map::empty(), size: 1 }
    }

    /// The pool after `constant` was stored at the running size, which then
    /// advances by the constant's width.
    pub open spec fn insert(self, constant: ConstantView) -> ConstantPoolView {
        ConstantPoolView {
            members: self.members.insert(self.size, constant),
            size: self.size + constant.width(),
        }
    }

    /// The pool after the constants of `constants` were inserted in order.
    pub open spec fn insert_all(self, constants: Seq<ConstantView>) -> ConstantPoolView
        decreases constants.len(),
    {
        if constants.len() == 0 {
            self
        } else {
            self.insert(constants[0]).insert_all(constants.drop_first())
        }
    }

    /// The constant at `index`, or the out-of-range failure that reports the
    /// index and the running size.
    pub open spec fn try_get(self, index: usize) -> Result<ConstantView, ConstantPoolError> {
        if self.members.contains_key(index as int) {
            Ok(self.members[index as int])
        } else {
            Err(ConstantPoolError::InvalidIndex { index, length: self.size as usize })
        }
    }

    /// The invariant of a pool built by insertion: slot 0 is never used,
    /// every constant lies wholly below the running size, and the slot after
    /// a two-slot constant stays empty.
    pub open spec fn wf(self) -> bool {
        &&& self.size >= 1
        &&& forall|k: int| #[trigger]
            self.members.contains_key(k) ==> 1 <= k && k + self.members[k].width() <= self.size
        &&& forall|k: int| #[trigger]
            self.members.contains_key(k) && self.members[k].width() == 2
                ==> !self.members.contains_key(k + 1)
    }
}

/// Insertion keeps the pool's invariant.
pub proof fn lemma_insert_preserves_wf(pool: ConstantPoolView, constant: ConstantView)
    requires
        pool.wf(),
    ensures
        pool.insert(constant).wf(),
{
    let next = pool.insert(constant);
    assert forall|k: int| #[trigger] next.members.contains_key(k) implies 1 <= k && k
        + next.members[k].width() <= next.size by {}
    assert forall|k: int| #[trigger]
        next.members.contains_key(k) && next.members[k].width() == 2
        implies !next.members.contains_key(k + 1) by {}
}

/// Inserting any sequence of constants keeps the pool's invariant, never
/// lowers the running size, and leaves every slot below the old running size
/// as it was.
pub proof fn lemma_insert_all_keeps_lower_slots(pool: ConstantPoolView, constants: Seq<ConstantView>)
    requires
        pool.wf(),
    ensures
        pool.insert_all(constants).wf(),
        pool.insert_all(constants).size >= pool.size,
        forall|k: int|
            k < pool.size ==> (#[trigger] pool.insert_all(constants).members.contains_key(k)
                <==> pool.members.contains_key(k)),
    decreases constants.len(),
{
    if constants.len() > 0 {
        lemma_insert_preserves_wf(pool, constants[0]);
        lemma_insert_all_keeps_lower_slots(pool.insert(constants[0]), constants.drop_first());
    }
}

/// A 64-bit numeric constant takes two slots: after a `Long` or `Double` is
/// inserted at running index `i`, the running size is `i + 2`, the constant
/// stands at `i`, the next insertion lands at `i + 2`, and a lookup of the
/// index `i + 1` is an out-of-range failure, whatever is inserted later.
pub proof fn lemma_wide_constant_takes_two_slots(
    pool: ConstantPoolView,
    wide: ConstantView,
    next: ConstantView,
    later: Seq<ConstantView>,
    index: usize,
)
    requires
        pool.wf(),
        wide is Long || wide is Double,
        index == pool.size + 1,
    ensures
        pool.insert(wide).size == pool.size + 2,
        pool.insert(wide).members.contains_key(pool.size),
        pool.insert(wide).members[pool.size] == wide,
        pool.insert(wide).insert(next).members.contains_key(pool.size + 2),
        pool.insert(wide).insert(next).members[pool.size + 2] == next,
        pool.insert(wide).insert_all(later).try_get(index) == Err::<
            ConstantView,
            ConstantPoolError,
        >(
            ConstantPoolError::InvalidIndex {
                index,
                length: pool.insert(wide).insert_all(later).size as usize,
            },
        ),
{
    lemma_insert_preserves_wf(pool, wide);
    lemma_insert_all_keeps_lower_slots(pool.insert(wide), later);
}

/// Every other constant takes one slot: after it is inserted at running
/// index `i`, the running size is `i + 1`, the constant stands at `i`, and
/// the next insertion lands at `i + 1`.
pub proof fn lemma_narrow_constant_takes_one_slot(
    pool: ConstantPoolView,
    narrow: ConstantView,
    next: ConstantView,
)
    requires
        !(narrow is Long || narrow is Double),
    ensures
        pool.insert(narrow).size == pool.size + 1,
        pool.insert(narrow).members.contains_key(pool.size),
        pool.insert(narrow).members[pool.size] == narrow,
        pool.insert(narrow).insert(next).members.contains_key(pool.size + 1),
        pool.insert(narrow).insert(next).members[pool.size + 1] == next,
{
}

/// The constant table of one class: a mapping from slot index to constant
/// and the running size. It is filled by sequential insertion and read by
/// index afterwards.
#[derive(Debug, Clone, PartialEq, Eq)]
pub struct ConstantPool {
    members: HashMap<usize, Constant>,
    size: usize,
}

impl View for ConstantPool {
    type V = ConstantPoolView;

    closed spec fn view(&self) -> ConstantPoolView {
        ConstantPoolView {
            members: Map::new(
                |k: int| 0 <= k <= usize::MAX && self.members@.contains_key(k as usize),
                |k: int| self.members@[k as usize]@,
            ),
            size: self.size as int,
        }
    }
}

impl ConstantPool {
    /// The invariant of a pool built by insertion.
    pub open spec fn wf(&self) -> bool {
        self@.wf()
    }

    /// An empty pool; its first constant will take slot 1.
    pub fn new() -> (pool: ConstantPool)
        ensures
            pool@ == ConstantPoolView::empty(),
            pool.wf(),
    {
        let pool = ConstantPool { members: HashMap::new(), size: 1 };
        assert(pool@.members =~= Map::empty());
        pool
    }

    /// An empty pool; its first constant will take slot 1. `capacity` is only
    /// a hint for how much room to set aside, and the pool's value does not
    /// depend on it.
    pub fn with_capacity(capacity: usize) -> (pool: ConstantPool)
        ensures
            pool@ == ConstantPoolView::empty(),
            pool.wf(),
    {
        let pool = ConstantPool { members: HashMap::with_capacity(capacity), size: 1 };
        assert(pool@.members =~= Map::empty());
        pool
    }

    /// The constant at `index`, or an out-of-range failure that reports the
    /// index and the running size. Slot 0 and the second slot of a two-slot
    /// constant are never populated, so asking for them fails.
    pub fn try_get(&self, index: usize) -> (r: Result<&Constant, ConstantPoolError>)
        ensures
            ok_view(r) == self@.try_get(index),
    {
        match self.members.get(&index) {
            Some(c) => Ok(c),
            None => Err(ConstantPoolError::InvalidIndex { index, length: self.size }),
        }
    }

    /// The constant at `index`, for a caller that knows the slot is
    /// populated.
    pub fn get(&self, index: usize) -> (c: &Constant)
        requires
            self@.members.contains_key(index as int),
        ensures
            c@ == self@.members[index as int],
    {
        match self.members.get(&index) {
            Some(c) => c,
            None => vstd::pervasive::unreached(),
        }
    }

    /// Stores `constant` at the running size and advances the running size
    /// by the constant's width: 2 for `Long` and `Double`, 1 otherwise.
    pub fn insert(&mut self, constant: Constant)
        requires
            old(self)@.size + constant@.width() <= usize::MAX,
        ensures
            final(self)@ == old(self)@.insert(constant@),
            old(self).wf() ==> final(self).wf(),
            final(self)@.size == old(self)@.size + (if constant@ is Long || constant@ is Double {
                2int
            } else {
                1int
            }),
            final(self)@.try_get(old(self)@.size as usize) == Ok::<ConstantView, ConstantPoolError>(
                constant@,
            ),
            old(self).wf() && (constant@ is Long || constant@ is Double) ==> final(self)@.try_get(
                (old(self)@.size + 1) as usize,
            ) == Err::<ConstantView, ConstantPoolError>(
                ConstantPoolError::InvalidIndex {
                    index: (old(self)@.size + 1) as usize,
                    length: final(self)@.size as usize,
                },
            ),
    {
        let constant_length = constant.tag().length();
        let ghost before = self@;
        let ghost value = constant@;
        self.members.insert(self.size, constant);
        self.size += constant_length;
        proof {
            assert(self@.members =~= before.insert(value).members);
            if before.wf() {
                lemma_insert_preserves_wf(before, value);
            }
        }
    }

    /// The running size: the slot that the next constant will take.
    pub fn size(&self) -> (n: usize)
        ensures
            n == self@.size,
    {
        self.size
    }

    /// The name that the `Class` constant at `class_index` refers to.
    pub fn get_class_name(&self, class_index: usize) -> (r: Result<String, ConstantPoolError>)
        ensures
            ok_view(r) == spec_class_name(self@, class_index),
    {
        let name_index = match self.try_get(class_index) {
            Err(e) => return Err(e),
            Ok(Constant::Class { name_index }) => *name_index,
            Ok(other) => return Err(
                ConstantPoolError::UnexpectedType {
                    found: other.tag(),
                    expected: ConstantTag::Class,
                },
            ),
        };
        match self.try_get(name_index as usize) {
            Err(e) => Err(e),
            Ok(Constant::Utf8 { value }) => Ok(value.clone()),
            Ok(other) => Err(
                ConstantPoolError::UnexpectedType {
                    found: other.tag(),
                    expected: ConstantTag::Utf8,
                },
            ),
        }
    }
}

/// The name that the `Class` constant at `class_index` refers to: the text
/// of the UTF-8 constant at its name index. Fails when either slot is empty
/// or holds a constant of another kind.
pub open spec fn spec_class_name(pool: ConstantPoolView, class_index: usize) -> Result<
    Seq<char>,
    ConstantPoolError,
> {
    match pool.try_get(class_index) {
        Err(e) => Err(e),
        Ok(ConstantView::Class { name_index }) => match pool.try_get(name_index as usize) {
            Err(e) => Err(e),
            Ok(ConstantView::Utf8 { value }) => Ok(value),
            Ok(other) => Err(
                ConstantPoolError::UnexpectedType {
                    found: other.tag(),
                    expected: ConstantTag::Utf8,
                },
            ),
        },
        Ok(other) => Err(
            ConstantPoolError::UnexpectedType { found: other.tag(), expected: ConstantTag::Class },
        ),
    }
}

} // verus!
