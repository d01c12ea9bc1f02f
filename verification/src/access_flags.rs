//! Access flags: the 16-bit set of modifiers of a class, field or method.

use crate::cursor::{spec_read_u16, ByteCursor};
use crate::error::AccessFlagError;
use vstd::prelude::*;

verus! {

/// A set of access flags. Its view is the raw 16-bit mask.
#[derive(Debug, Clone, Copy, PartialEq, Eq, Hash)]
pub struct AccessFlags {
    bits: u16,
}

impl View for AccessFlags {
    type V = u16;

    closed spec fn view(&self) -> u16 {
        self.bits
    }
}

impl AccessFlags {
    /// Declared public; may be accessed from outside its package.
    pub const PUBLIC: u16 = 0x0001;

    /// Declared private; accessible only within the defining class and other
    /// classes belonging to the same nest.
    pub const PRIVATE: u16 = 0x0002;

    /// Declared protected; may be accessed within subclasses.
    pub const PROTECTED: u16 = 0x0004;

    /// Declared static.
    pub const STATIC: u16 = 0x0008;

    /// Declared final; never directly assigned to after object construction.
    pub const FINAL: u16 = 0x0010;

    /// Treat superclass methods specially when invoked by the invokespecial
    /// instruction.
    pub const SUPER: u16 = 0x0020;

    /// Declared volatile; cannot be cached.
    pub const VOLATILE: u16 = 0x0040;

    /// Declared transient; not written or read by a persistent object
    /// manager.
    pub const TRANSIENT: u16 = 0x0080;

    /// Declared native; implemented in a language other than the Java
    /// programming language.
    pub const NATIVE: u16 = 0x0100;

    /// Is an interface, not a class.
    pub const INTERFACE: u16 = 0x0200;

    /// Declared abstract; must not be instantiated.
    pub const ABSTRACT: u16 = 0x0400;

    /// Declared strictfp; floating-point mode is FP-strict.
    pub const STRICT: u16 = 0x0800;

    /// Declared synthetic; not present in the source code.
    pub const SYNTHETIC: u16 = 0x1000;

    /// Declared as an annotation interface.
    pub const ANNOTATION: u16 = 0x2000;

    /// Declared as an enum class.
    pub const ENUM: u16 = 0x4000;

    /// Is a module, not a class or interface.
    pub const MODULE: u16 = 0x8000;

    /// Every known flag.
    pub const ALL: u16 = 0xFFFF;

    /// Whether `bits` holds known flags only.
    pub open spec fn known(bits: u16) -> bool {
        bits & !0xFFFFu16 == 0
    }

    /// The set with the raw mask `bits`, unless a bit of it is not a known
    /// flag.
    pub fn from_bits(bits: u16) -> (r: Option<AccessFlags>)
        ensures
            r is Some <==> Self::known(bits),
            r matches Some(flags) ==> flags@ == bits,
    {
        if bits & !Self::ALL == 0 {
            Some(AccessFlags { bits })
        } else {
            None
        }
    }

    /// The raw mask of the set.
    pub fn bits(&self) -> (r: u16)
        ensures
            r == self@,
    {
        self.bits
    }

    /// Whether every flag of the mask `flag` is in the set.
    pub fn contains(&self, flag: u16) -> (r: bool)
        ensures
            r == (self@ & flag == flag),
    {
        self.bits & flag == flag
    }

    /// Decodes an access-flags field: a big-endian `u16` that must hold
    /// known flags only.
    pub fn read_from(r: &mut ByteCursor) -> (out: Result<AccessFlags, AccessFlagError>)
        ensures
            final(r).bytes() == old(r).bytes(),
            (
                match out {
                    Ok(flags) => Ok(flags@),
                    Err(e) => Err(e),
                },
                final(r).position(),
            ) == spec_read_access_flags(old(r).bytes(), old(r).position()),
    {
        let found = match r.read_u16() {
            Ok(v) => v,
            Err(e) => return Err(AccessFlagError::IOError(e)),
        };
        match AccessFlags::from_bits(found) {
            Some(flags) => Ok(flags),
            None => Err(AccessFlagError::InvalidValue { found }),
        }
    }
}

/// Outcome and next position of decoding an access-flags field at `pos`: the
/// raw mask, a failure that reports the mask when it holds an unknown bit,
/// or a read failure.
pub open spec fn spec_read_access_flags(s: Seq<u8>, pos: int) -> (
    Result<u16, AccessFlagError>,
    int,
) {
    match spec_read_u16(s, pos) {
        (Err(e), p) => (Err(AccessFlagError::IOError(e)), p),
        (Ok(found), p) => if AccessFlags::known(found) {
            (Ok(found), p)
        } else {
            (Err(AccessFlagError::InvalidValue { found }), p)
        },
    }
}

/// Each of the sixteen bits is a known flag, so every mask is accepted.
pub proof fn lemma_every_mask_is_known(bits: u16)
    ensures
        AccessFlags::known(bits),
{
    assert(bits & !0xFFFFu16 == 0) by (bit_vector);
}

} // verus!
