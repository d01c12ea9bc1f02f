//! A decoder for the JVM class-file format, with a source-text backend.
//!
//! The decoder turns the bytes of a class file into a typed model: the
//! constant pool, the names of the class, its members with their parsed
//! descriptors, and the attributes of each. It also segments method bytecode
//! into instructions. Every decoding function is specified by a function
//! from the input bytes to the outcome, and proved against it.
//!
//! The backend renders a decoded class as source text.

pub mod access_flags;
pub mod attribute;
pub mod class;
pub mod class_path;
pub mod codegen;
pub mod constant;
pub mod cursor;
pub mod dependency;
pub mod error;
pub mod file;
pub mod instruction;
pub mod ir;
pub mod member;
pub mod method;
pub mod model;
pub mod op;
pub mod settings;
pub mod text;
pub mod ty;

pub use crate::access_flags::AccessFlags;
pub use crate::attribute::{Attribute, AttributeTable, AttributeValue};
pub use crate::class::{Class, CompilerInfo, SourceLanguage, CLASS_SIGNATURE};
pub use crate::class_path::ClassPath;
pub use crate::constant::{Constant, ConstantPool, ConstantTag, ReferenceKind};
pub use crate::cursor::ByteCursor;
pub use crate::instruction::Instruction;
pub use crate::member::Member;
pub use crate::op::Op;
pub use crate::ty::{Descriptor, JVMPrimitive, JVMType, TypeSpecifier};
