//! Method handles: the kinds of reference a method handle can hold.

use vstd::prelude::*;

verus! {

/// The kind of a method handle.
#[derive(Debug, Copy, Clone, PartialEq, Eq, Structural)]
pub enum MethodHandle {
    GetField,
    GetStatic,
    PutField,
    PutStatic,
    InvokeVirtual,
    InvokeStatic,
    InvokeSpecial,
    NewInvokeSpecial,
    InvokeInterface,
}

impl MethodHandle {
    /// The handle kind with wire value `value`, if there is one.
    pub open spec fn spec_from_u8(value: u8) -> Option<MethodHandle> {
        match value {
            1u8 => Some(MethodHandle::GetField),
            2u8 => Some(MethodHandle::GetStatic),
            3u8 => Some(MethodHandle::PutField),
            4u8 => Some(MethodHandle::PutStatic),
            5u8 => Some(MethodHandle::InvokeVirtual),
            6u8 => Some(MethodHandle::InvokeStatic),
            7u8 => Some(MethodHandle::InvokeSpecial),
            8u8 => Some(MethodHandle::NewInvokeSpecial),
            9u8 => Some(MethodHandle::InvokeInterface),
            _ => None,
        }
    }

    /// The wire value of the handle kind.
    pub open spec fn spec_to_u8(self) -> u8 {
        match self {
            MethodHandle::GetField => 1,
            MethodHandle::GetStatic => 2,
            MethodHandle::PutField => 3,
            MethodHandle::PutStatic => 4,
            MethodHandle::InvokeVirtual => 5,
            MethodHandle::InvokeStatic => 6,
            MethodHandle::InvokeSpecial => 7,
            MethodHandle::NewInvokeSpecial => 8,
            MethodHandle::InvokeInterface => 9,
        }
    }

    /// The name of the handle kind.
    pub open spec fn spec_name(self) -> Seq<char> {
        match self {
            MethodHandle::GetField => "GetField"@,
            MethodHandle::GetStatic => "GetStatic"@,
            MethodHandle::PutField => "PutField"@,
            MethodHandle::PutStatic => "PutStatic"@,
            MethodHandle::InvokeVirtual => "InvokeVirtual"@,
            MethodHandle::InvokeStatic => "InvokeStatic"@,
            MethodHandle::InvokeSpecial => "InvokeSpecial"@,
            MethodHandle::NewInvokeSpecial => "NewInvokeSpecial"@,
            MethodHandle::InvokeInterface => "InvokeInterface"@,
        }
    }

    /// The handle kind with wire value `value`; `None` outside `1..=9`.
    pub fn from_u8(value: u8) -> (r: Option<MethodHandle>)
        ensures
            r == Self::spec_from_u8(value),
            r is Some <==> 1 <= value <= 9,
            r matches Some(kind) ==> kind.spec_to_u8() == value,
    {
        match value {
            1 => Some(MethodHandle::GetField),
            2 => Some(MethodHandle::GetStatic),
            3 => Some(MethodHandle::PutField),
            4 => Some(MethodHandle::PutStatic),
            5 => Some(MethodHandle::InvokeVirtual),
            6 => Some(MethodHandle::InvokeStatic),
            7 => Some(MethodHandle::InvokeSpecial),
            8 => Some(MethodHandle::NewInvokeSpecial),
            9 => Some(MethodHandle::InvokeInterface),
            _ => None,
        }
    }

    /// The wire value of the handle kind.
    pub fn to_u8(self) -> (r: u8)
        ensures
            r == self.spec_to_u8(),
            Self::spec_from_u8(r) == Some(self),
    {
        match self {
            MethodHandle::GetField => 1,
            MethodHandle::GetStatic => 2,
            MethodHandle::PutField => 3,
            MethodHandle::PutStatic => 4,
            MethodHandle::InvokeVirtual => 5,
            MethodHandle::InvokeStatic => 6,
            MethodHandle::InvokeSpecial => 7,
            MethodHandle::NewInvokeSpecial => 8,
            MethodHandle::InvokeInterface => 9,
        }
    }

    /// The name of the handle kind.
    pub fn name(&self) -> (r: String)
        ensures
            r@ == self.spec_name(),
    {
        match self {
            MethodHandle::GetField => "GetField",
            MethodHandle::GetStatic => "GetStatic",
            MethodHandle::PutField => "PutField",
            MethodHandle::PutStatic => "PutStatic",
            MethodHandle::InvokeVirtual => "InvokeVirtual",
            MethodHandle::InvokeStatic => "InvokeStatic",
            MethodHandle::InvokeSpecial => "InvokeSpecial",
            MethodHandle::NewInvokeSpecial => "NewInvokeSpecial",
            MethodHandle::InvokeInterface => "InvokeInterface",
        }.to_owned()
    }
}

} // verus!
