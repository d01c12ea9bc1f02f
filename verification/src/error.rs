//! The failure conditions of decoding. Every one of them is fatal to the
//! structure being decoded and carries the offending value.

use crate::constant::ConstantTag;
use crate::cursor::ReadError;
use crate::ty::{JVMType, JVMTypeView};
use vstd::prelude::*;

verus! {

/// A lookup in the constant pool that cannot be answered.
#[derive(Debug, Clone, Copy, PartialEq, Eq, Structural)]
pub enum ConstantPoolError {
    /// No constant is stored at `index`; `length` is the pool's running size.
    InvalidIndex { index: usize, length: usize },
    /// The constant at the index has tag `found` where `expected` was needed.
    UnexpectedType { found: ConstantTag, expected: ConstantTag },
}

/// A failure to decode an access-flags field.
#[derive(Debug, Clone, Copy, PartialEq, Eq, Structural)]
pub enum AccessFlagError {
    /// The field holds a bit outside the known mask.
    InvalidValue { found: u16 },
    /// The buffer ended early.
    IOError(ReadError),
}

/// A failure to decode one constant-pool entry.
#[derive(Debug, Clone, Copy, PartialEq, Eq, Structural)]
pub enum ConstantError {
    /// The constant's data ended abruptly.
    IncompleteData,
    /// The tag byte is not assigned to any kind of constant.
    UnsupportedTag { tag: u8 },
    /// The method-handle kind is outside `1..=9`.
    UnsupportedReferenceKind { value: u8 },
    /// The bytes of a text constant are not valid UTF-8.
    UTF8ParseError,
    /// The buffer ended early.
    IOError(ReadError),
}

/// A failure to decode an attribute record.
#[derive(Debug, Clone, Copy, PartialEq, Eq, Structural)]
pub enum AttributeError {
    /// The attribute's name index points at no constant.
    NoAttribName,
    /// The attribute's name index points at a constant that is not text.
    InvalidNameType,
    /// The attribute's data was not fully read.
    IncompleteData,
    /// The attribute holds data of another shape than the one asked for.
    InvalidData,
    /// The attribute refers to a constant that is missing or is not text.
    MissingConstant,
    /// A constant-pool lookup failed.
    ConstantPool(ConstantPoolError),
    /// The buffer ended early.
    IOError(ReadError),
}

/// A malformed qualified class name.
#[derive(Debug, Clone, PartialEq, Eq)]
pub enum ClassPathError {
    /// A class path declaration did not start with `L`.
    NoPrefix(char),
    /// A class path declaration did not end with `;`.
    NotTerminated,
    /// A segment of the path is not an identifier; `reason` says why.
    InvalidIdentifier { identifier: String, reason: &'static str },
    /// A constant-pool lookup failed.
    ConstantPool(ConstantPoolError),
    /// The buffer ended early.
    IOError(ReadError),
}

/// The mathematical value of a [`ClassPathError`].
pub enum ClassPathErrorView {
    NoPrefix(char),
    NotTerminated,
    InvalidIdentifier { identifier: Seq<char>, reason: Seq<char> },
    ConstantPool(ConstantPoolError),
    IOError(ReadError),
}

impl View for ClassPathError {
    type V = ClassPathErrorView;

    open spec fn view(&self) -> ClassPathErrorView {
        match self {
            ClassPathError::NoPrefix(c) => ClassPathErrorView::NoPrefix(*c),
            ClassPathError::NotTerminated => ClassPathErrorView::NotTerminated,
            ClassPathError::InvalidIdentifier {
                identifier,
                reason,
            } => ClassPathErrorView::InvalidIdentifier { identifier: identifier@, reason: reason@ },
            ClassPathError::ConstantPool(e) => ClassPathErrorView::ConstantPool(*e),
            ClassPathError::IOError(e) => ClassPathErrorView::IOError(*e),
        }
    }
}

/// A malformed type descriptor.
#[derive(Debug, Clone, PartialEq, Eq)]
pub enum JVMTypeError {
    /// The character `found` stands where `expected` was needed.
    InvalidType { found: char, expected: &'static str },
    /// A primitive type was asked of a type that is none.
    NotPrimitive(JVMType),
    /// The class path of a class reference is malformed.
    ClassPath(ClassPathError),
    /// The buffer ended early.
    IOError(ReadError),
}

/// The mathematical value of a [`JVMTypeError`].
pub enum JVMTypeErrorView {
    InvalidType { found: char, expected: Seq<char> },
    NotPrimitive(JVMTypeView),
    ClassPath(ClassPathErrorView),
    IOError(ReadError),
}

impl View for JVMTypeError {
    type V = JVMTypeErrorView;

    open spec fn view(&self) -> JVMTypeErrorView {
        match self {
            JVMTypeError::InvalidType { found, expected } => JVMTypeErrorView::InvalidType {
                found: *found,
                expected: expected@,
            },
            JVMTypeError::NotPrimitive(t) => JVMTypeErrorView::NotPrimitive(t@),
            JVMTypeError::ClassPath(e) => JVMTypeErrorView::ClassPath(e@),
            JVMTypeError::IOError(e) => JVMTypeErrorView::IOError(*e),
        }
    }
}

/// A failure to decode a field or method record.
#[derive(Debug, Clone, PartialEq, Eq)]
pub enum MemberError {
    /// The member's name index points at no constant.
    NoMemberName,
    /// The member's name index points at a constant that is not text.
    InvalidNameType,
    /// The member's descriptor index points at no constant.
    NoMemberDesc,
    /// The access flags are malformed.
    AccessFlagError(AccessFlagError),
    /// An attribute of the member is malformed.
    AttributeReadError(AttributeError),
    /// A constant-pool lookup failed.
    ConstantPool(ConstantPoolError),
    /// The descriptor is malformed.
    JVMTypeError(JVMTypeError),
    /// The buffer ended early.
    IOError(ReadError),
}

/// The mathematical value of a [`MemberError`].
pub enum MemberErrorView {
    NoMemberName,
    InvalidNameType,
    NoMemberDesc,
    AccessFlagError(AccessFlagError),
    AttributeReadError(AttributeError),
    ConstantPool(ConstantPoolError),
    JVMTypeError(JVMTypeErrorView),
    IOError(ReadError),
}

impl View for MemberError {
    type V = MemberErrorView;

    open spec fn view(&self) -> MemberErrorView {
        match self {
            MemberError::NoMemberName => MemberErrorView::NoMemberName,
            MemberError::InvalidNameType => MemberErrorView::InvalidNameType,
            MemberError::NoMemberDesc => MemberErrorView::NoMemberDesc,
            MemberError::AccessFlagError(e) => MemberErrorView::AccessFlagError(*e),
            MemberError::AttributeReadError(e) => MemberErrorView::AttributeReadError(*e),
            MemberError::ConstantPool(e) => MemberErrorView::ConstantPool(*e),
            MemberError::JVMTypeError(e) => MemberErrorView::JVMTypeError(e@),
            MemberError::IOError(e) => MemberErrorView::IOError(*e),
        }
    }
}

/// A failure to decode a class file.
#[derive(Debug, Clone, PartialEq, Eq)]
pub enum ClassReadError {
    /// The file does not start with the magic signature; `found` is what
    /// stands there.
    InvalidMagic { found: u32 },
    /// A constant-pool lookup failed.
    ConstantPoolIndex(ConstantPoolError),
    /// The class or superclass index does not lead through a `Class`
    /// constant to the text of a name.
    InvalidClassReference,
    /// A `Class` constant's name index does not lead to the text of a name.
    InvalidClassNameReference,
    /// An interface index does not lead through a `Class` constant to the
    /// text of a name.
    InvalidInterfaceReference,
    /// A constant is malformed.
    Constant(ConstantError),
    /// A class name is malformed.
    ClassPath(ClassPathError),
    /// The access flags are malformed.
    AccessFlag(AccessFlagError),
    /// A field or method is malformed.
    Member(MemberError),
    /// A class attribute is malformed.
    Attribute(AttributeError),
    /// The buffer ended early.
    IOError(ReadError),
}

/// The mathematical value of a [`ClassReadError`].
pub enum ClassReadErrorView {
    InvalidMagic { found: u32 },
    ConstantPoolIndex(ConstantPoolError),
    InvalidClassReference,
    InvalidClassNameReference,
    InvalidInterfaceReference,
    Constant(ConstantError),
    ClassPath(ClassPathErrorView),
    AccessFlag(AccessFlagError),
    Member(MemberErrorView),
    Attribute(AttributeError),
    IOError(ReadError),
}

impl View for ClassReadError {
    type V = ClassReadErrorView;

    open spec fn view(&self) -> ClassReadErrorView {
        match self {
            ClassReadError::InvalidMagic { found } => ClassReadErrorView::InvalidMagic {
                found: *found,
            },
            ClassReadError::ConstantPoolIndex(e) => ClassReadErrorView::ConstantPoolIndex(*e),
            ClassReadError::InvalidClassReference => ClassReadErrorView::InvalidClassReference,
            ClassReadError::InvalidClassNameReference => ClassReadErrorView::InvalidClassNameReference,
            ClassReadError::InvalidInterfaceReference => ClassReadErrorView::InvalidInterfaceReference,
            ClassReadError::Constant(e) => ClassReadErrorView::Constant(*e),
            ClassReadError::ClassPath(e) => ClassReadErrorView::ClassPath(e@),
            ClassReadError::AccessFlag(e) => ClassReadErrorView::AccessFlag(*e),
            ClassReadError::Member(e) => ClassReadErrorView::Member(e@),
            ClassReadError::Attribute(e) => ClassReadErrorView::Attribute(*e),
            ClassReadError::IOError(e) => ClassReadErrorView::IOError(*e),
        }
    }
}

} // verus!
