//! Member codec: one field or method record.

use crate::access_flags::{spec_read_access_flags, AccessFlags};
use crate::attribute::{spec_read_all, table_unique, AttributeTable, AttributeValue, TableView};
use crate::constant::{Constant, ConstantPool, ConstantPoolView, ConstantTag, ConstantView};
use crate::cursor::{result_view, spec_read_u16, ByteCursor};
use crate::error::{ConstantPoolError, MemberError, MemberErrorView};
use crate::text::str_eq;
use crate::ty::{spec_parse_descriptor, Descriptor, DescriptorView};
use vstd::prelude::*;

verus! {

/// One field or method: its access flags, its name, its descriptor and its
/// attributes.
#[derive(Debug, PartialEq, Eq)]
pub struct Member {
    pub access_flags: AccessFlags,
    pub name: String,
    pub descriptor: Descriptor,
    pub attributes: AttributeTable,
}

/// The mathematical value of a [`Member`].
pub struct MemberView {
    pub access_flags: u16,
    pub name: Seq<char>,
    pub descriptor: DescriptorView,
    pub attributes: TableView,
}

impl View for Member {
    type V = MemberView;

    open spec fn view(&self) -> MemberView {
        MemberView {
            access_flags: self.access_flags@,
            name: self.name@,
            descriptor: self.descriptor@,
            attributes: self.attributes@,
        }
    }
}

impl MemberView {
    /// The invariants of a decoded member: its descriptor meets its own, and
    /// no attribute name occurs twice.
    pub open spec fn wf(self) -> bool {
        table_unique(self.attributes) && self.descriptor.wf()
    }
}

/// The name of a member whose name index is `index`: the text of the UTF-8
/// constant there.
pub open spec fn spec_member_name(pool: ConstantPoolView, index: u16) -> Result<
    Seq<char>,
    MemberErrorView,
> {
    match pool.try_get(index as usize) {
        Err(e) => Err(MemberErrorView::ConstantPool(e)),
        Ok(ConstantView::Utf8 { value }) => Ok(value),
        Ok(_) => Err(MemberErrorView::InvalidNameType),
    }
}

/// The descriptor of a member whose descriptor index is `index`: the
/// descriptor that the text of the UTF-8 constant there spells.
pub open spec fn spec_member_descriptor(pool: ConstantPoolView, index: u16) -> Result<
    DescriptorView,
    MemberErrorView,
> {
    match pool.try_get(index as usize) {
        Err(_) => Err(MemberErrorView::NoMemberDesc),
        Ok(ConstantView::Utf8 { value }) => match spec_parse_descriptor(value) {
            Ok(descriptor) => Ok(descriptor),
            Err(e) => Err(MemberErrorView::JVMTypeError(e)),
        },
        Ok(other) => Err(
            MemberErrorView::ConstantPool(
                ConstantPoolError::UnexpectedType {
                    found: other.tag(),
                    expected: ConstantTag::Utf8,
                },
            ),
        ),
    }
}

/// Outcome and next position of decoding one member record at `pos`: `u16`
/// access flags, `u16` name index, `u16` descriptor index, and the
/// attribute table. The name is resolved before the descriptor index is
/// read.
pub open spec fn spec_read_member(s: Seq<u8>, pos: int, pool: ConstantPoolView) -> (
    Result<MemberView, MemberErrorView>,
    int,
) {
    match spec_read_access_flags(s, pos) {
        (Err(e), p) => (Err(MemberErrorView::AccessFlagError(e)), p),
        (Ok(access_flags), at1) => match spec_read_u16(s, at1) {
            (Err(e), p) => (Err(MemberErrorView::IOError(e)), p),
            (Ok(name_index), at2) => match spec_member_name(pool, name_index) {
                Err(e) => (Err(e), at2),
                Ok(name) => match spec_read_u16(s, at2) {
                    (Err(e), p) => (Err(MemberErrorView::IOError(e)), p),
                    (Ok(descriptor_index), at3) => match spec_member_descriptor(
                        pool,
                        descriptor_index,
                    ) {
                        Err(e) => (Err(e), at3),
                        Ok(descriptor) => match spec_read_all(s, at3, Some(pool)) {
                            (Err(e), p) => (Err(MemberErrorView::AttributeReadError(e)), p),
                            (Ok(attributes), at4) => (
                                Ok(MemberView { access_flags, name, descriptor, attributes }),
                                at4,
                            ),
                        },
                    },
                },
            },
        },
    }
}

impl Member {
    /// Decodes one field or method record, resolving its name and its
    /// descriptor through `constant_pool`.
    pub fn read_from(r: &mut ByteCursor, constant_pool: &ConstantPool) -> (out: Result<
        Member,
        MemberError,
    >)
        ensures
            final(r).bytes() == old(r).bytes(),
            (result_view(out), final(r).position()) == spec_read_member(
                old(r).bytes(),
                old(r).position(),
                constant_pool@,
            ),
            out matches Ok(member) ==> member@.wf(),
    {
        let access_flags = match AccessFlags::read_from(r) {
            Ok(flags) => flags,
            Err(e) => return Err(MemberError::AccessFlagError(e)),
        };
        let name_i = match r.read_u16() {
            Ok(v) => v,
            Err(e) => return Err(MemberError::IOError(e)),
        };
        let name = match constant_pool.try_get(name_i as usize) {
            Ok(Constant::Utf8 { value }) => value.clone(),
            Ok(_) => return Err(MemberError::InvalidNameType),
            Err(e) => return Err(MemberError::ConstantPool(e)),
        };
        let desc_i = match r.read_u16() {
            Ok(v) => v,
            Err(e) => return Err(MemberError::IOError(e)),
        };
        let descriptor = match constant_pool.try_get(desc_i as usize) {
            Ok(Constant::Utf8 { value }) => match Descriptor::parse(value.as_str()) {
                Ok(descriptor) => descriptor,
                Err(e) => return Err(MemberError::JVMTypeError(e)),
            },
            Ok(other) => {
                return Err(
                    MemberError::ConstantPool(
                        ConstantPoolError::UnexpectedType {
                            found: other.tag(),
                            expected: ConstantTag::Utf8,
                        },
                    ),
                );
            },
            Err(_) => return Err(MemberError::NoMemberDesc),
        };
        let attributes = match AttributeValue::read_all(r, Some(constant_pool)) {
            Ok(attributes) => attributes,
            Err(e) => return Err(MemberError::AttributeReadError(e)),
        };
        Ok(Member { access_flags, name, descriptor, attributes })
    }

    /// Whether the member is a constructor, which is named `<init>`.
    pub fn is_constructor(&self) -> (r: bool)
        ensures
            r == (self@.name == "<init>"@),
    {
        str_eq(self.name.as_str(), "<init>")
    }
}

} // verus!
