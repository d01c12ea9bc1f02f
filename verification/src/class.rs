//! Class codec: decodes a whole class file in one sequential pass.

use crate::access_flags::{spec_read_access_flags, AccessFlags};
use crate::attribute::{spec_read_all, table_unique, AttributeTable, AttributeValue, TableView};
use crate::class_path::{spec_parse_class_path, ClassPath, ClassPathView};
use crate::constant::{
    spec_read_constant, Constant, ConstantPool, ConstantPoolView,
    ConstantView,
};
use crate::cursor::{result_view, spec_read_u16, spec_read_u32, ByteCursor};
use crate::error::{ClassReadError, ClassReadErrorView};
use crate::member::{spec_read_member, Member, MemberView};
use vstd::prelude::*;

verus! {

/// The magic signature that opens every class file.
pub const CLASS_SIGNATURE: u32 = 0xCAFEBABE;

/// The language a class was compiled from.
#[derive(Debug, Copy, Clone, PartialEq, Eq, Structural)]
pub enum SourceLanguage {
    Java,
    Kotlin,
    Scala,
    Groovy,
}

/// The version of the class-file format and the source language.
#[derive(Debug, Copy, Clone, PartialEq, Eq, Structural)]
pub struct CompilerInfo {
    pub major: u16,
    pub minor: u16,
    pub language: SourceLanguage,
}

/// The states of the class-path parser.
pub enum ClassPathParseState {
    Init { with_prefix: bool },
}

/// A decoded class: the root of the model, which owns its constant pool, its
/// members and its attributes.
#[derive(Debug, PartialEq, Eq)]
pub struct Class {
    pub compiler_info: CompilerInfo,
    pub access_flags: AccessFlags,
    pub constant_pool: ConstantPool,
    pub class_name: ClassPath,
    pub super_name: Option<ClassPath>,
    pub interfaces: Vec<ClassPath>,
    pub fields: Vec<Member>,
    pub methods: Vec<Member>,
    pub attributes: AttributeTable,
}

/// The mathematical value of a [`Class`].
pub struct ClassView {
    pub compiler_info: CompilerInfo,
    pub access_flags: u16,
    pub constant_pool: ConstantPoolView,
    pub class_name: ClassPathView,
    pub super_name: Option<ClassPathView>,
    pub interfaces: Seq<ClassPathView>,
    pub fields: Seq<MemberView>,
    pub methods: Seq<MemberView>,
    pub attributes: TableView,
}

/// The view of each class path of `v`.
pub open spec fn paths_view(v: Seq<ClassPath>) -> Seq<ClassPathView> {
    v.map_values(|p: ClassPath| p@)
}

/// The view of each member of `v`.
pub open spec fn members_view(v: Seq<Member>) -> Seq<MemberView> {
    v.map_values(|m: Member| m@)
}

impl View for Class {
    type V = ClassView;

    open spec fn view(&self) -> ClassView {
        ClassView {
            compiler_info: self.compiler_info,
            access_flags: self.access_flags@,
            constant_pool: self.constant_pool@,
            class_name: self.class_name@,
            super_name: match self.super_name {
                Some(p) => Some(p@),
                None => None,
            },
            interfaces: paths_view(self.interfaces@),
            fields: members_view(self.fields@),
            methods: members_view(self.methods@),
            attributes: self.attributes@,
        }
    }
}

/// The class path that the constant index `index` refers to: the index must
/// lead to a `Class` constant and its name index to a UTF-8 constant, whose
/// text is parsed as a class path. A chain of another shape is the failure
/// `fault`.
pub open spec fn spec_resolve_class(pool: ConstantPoolView, index: usize, fault: ClassReadErrorView) -> Result<
    ClassPathView,
    ClassReadErrorView,
> {
    match pool.try_get(index) {
        Ok(ConstantView::Class { name_index }) => match pool.try_get(name_index as usize) {
            Ok(ConstantView::Utf8 { value }) => match spec_parse_class_path(value) {
                Ok(path) => Ok(path),
                Err(e) => Err(ClassReadErrorView::ClassPath(e)),
            },
            _ => Err(fault),
        },
        _ => Err(fault),
    }
}

/// The number of slots below `count` that the pool `pool` has not reached.
pub open spec fn spec_slots_left(count: int, pool: ConstantPoolView) -> nat {
    if pool.size < count {
        (count - pool.size) as nat
    } else {
        0
    }
}

/// Outcome and next position of decoding the constant-pool section at
/// `pos`: the declared `u16` count, then constants until the running size
/// reaches the count.
pub open spec fn spec_read_pool_section(s: Seq<u8>, pos: int) -> (
    Result<ConstantPoolView, ClassReadErrorView>,
    int,
) {
    match spec_read_u16(s, pos) {
        (Err(e), p) => (Err(ClassReadErrorView::IOError(e)), p),
        (Ok(count), p) => spec_read_pool(s, p, count as int, ConstantPoolView::empty()),
    }
}

/// Outcome and next position of decoding the interface list at `pos`: a
/// `u16` count, then that many indices, each resolved to a class path.
pub open spec fn spec_read_interface_list(s: Seq<u8>, pos: int, pool: ConstantPoolView) -> (
    Result<Seq<ClassPathView>, ClassReadErrorView>,
    int,
) {
    match spec_read_u16(s, pos) {
        (Err(e), p) => (Err(ClassReadErrorView::IOError(e)), p),
        (Ok(count), p) => spec_read_interfaces(s, p, count as nat, Seq::empty(), pool),
    }
}

/// Outcome and next position of filling the pool `pool` from `pos` until its
/// running size reaches `count`. A two-slot constant advances the running
/// size by 2, so the pool may end one past `count`.
pub open spec fn spec_read_pool(s: Seq<u8>, pos: int, count: int, pool: ConstantPoolView) -> (
    Result<ConstantPoolView, ClassReadErrorView>,
    int,
)
    decreases spec_slots_left(count, pool),
{
    if pool.size >= count {
        (Ok(pool), pos)
    } else {
        match spec_read_constant(s, pos) {
            (Err(e), p) => (Err(ClassReadErrorView::Constant(e)), p),
            (Ok(constant), p) => spec_read_pool(s, p, count, pool.insert(constant)),
        }
    }
}

/// Outcome and next position of decoding `count` interface indices at `pos`
/// and resolving each, after the interfaces `done`.
pub open spec fn spec_read_interfaces(
    s: Seq<u8>,
    pos: int,
    count: nat,
    done: Seq<ClassPathView>,
    pool: ConstantPoolView,
) -> (Result<Seq<ClassPathView>, ClassReadErrorView>, int)
    decreases count,
{
    if count == 0 {
        (Ok(done), pos)
    } else {
        match spec_read_u16(s, pos) {
            (Err(e), p) => (Err(ClassReadErrorView::IOError(e)), p),
            (Ok(index), p) => match spec_resolve_class(
                pool,
                index as usize,
                ClassReadErrorView::InvalidInterfaceReference,
            ) {
                Err(e) => (Err(e), p),
                Ok(path) => spec_read_interfaces(s, p, (count - 1) as nat, done.push(path), pool),
            },
        }
    }
}

/// Outcome and next position of decoding `count` member records at `pos`,
/// after the members `done`.
pub open spec fn spec_read_members(
    s: Seq<u8>,
    pos: int,
    count: nat,
    done: Seq<MemberView>,
    pool: ConstantPoolView,
) -> (Result<Seq<MemberView>, ClassReadErrorView>, int)
    decreases count,
{
    if count == 0 {
        (Ok(done), pos)
    } else {
        match spec_read_member(s, pos, pool) {
            (Err(e), p) => (Err(ClassReadErrorView::Member(e)), p),
            (Ok(member), p) => spec_read_members(s, p, (count - 1) as nat, done.push(member), pool),
        }
    }
}

/// Outcome and next position of decoding a counted list of members at
/// `pos`: a `u16` count, then that many member records.
pub open spec fn spec_read_member_list(s: Seq<u8>, pos: int, pool: ConstantPoolView) -> (
    Result<Seq<MemberView>, ClassReadErrorView>,
    int,
) {
    match spec_read_u16(s, pos) {
        (Err(e), p) => (Err(ClassReadErrorView::IOError(e)), p),
        (Ok(count), p) => spec_read_members(s, p, count as nat, Seq::empty(), pool),
    }
}

/// The version and the constant pool that open a class file.
pub struct Preamble {
    pub compiler_info: CompilerInfo,
    pub constant_pool: ConstantPoolView,
}

/// Outcome and next position of decoding the start of a class file at `pos`:
/// the magic signature, which must be `0xCAFEBABE`, the minor and major
/// version, the declared constant-pool count, and the constants.
pub open spec fn spec_read_preamble(s: Seq<u8>, pos: int) -> (
    Result<Preamble, ClassReadErrorView>,
    int,
) {
    match spec_read_u32(s, pos) {
        (Err(e), p) => (Err(ClassReadErrorView::IOError(e)), p),
        (Ok(magic), at1) => if magic != CLASS_SIGNATURE {
            (Err(ClassReadErrorView::InvalidMagic { found: magic }), at1)
        } else {
            match spec_read_u16(s, at1) {
                (Err(e), p) => (Err(ClassReadErrorView::IOError(e)), p),
                (Ok(minor), at2) => match spec_read_u16(s, at2) {
                    (Err(e), p) => (Err(ClassReadErrorView::IOError(e)), p),
                    (Ok(major), at3) => match spec_read_pool_section(s, at3) {
                        (Err(e), p) => (Err(e), p),
                        (Ok(constant_pool), at4) => (
                            Ok(
                                Preamble {
                                    compiler_info: CompilerInfo {
                                        major,
                                        minor,
                                        language: SourceLanguage::Java,
                                    },
                                    constant_pool,
                                },
                            ),
                            at4,
                        ),
                    },
                },
            }
        },
    }
}

/// The names that a class file declares: its own, its superclass's and its
/// interfaces'.
pub struct Names {
    pub access_flags: u16,
    pub class_name: ClassPathView,
    pub super_name: Option<ClassPathView>,
    pub interfaces: Seq<ClassPathView>,
}

/// Outcome and next position of decoding the declaration part of a class
/// file at `pos`: access flags, the index of the class itself, the index of
/// its superclass (0 for none), and the counted list of interface indices.
/// Each index is resolved strictly from its own value.
pub open spec fn spec_read_names(s: Seq<u8>, pos: int, pool: ConstantPoolView) -> (
    Result<Names, ClassReadErrorView>,
    int,
) {
    match spec_read_access_flags(s, pos) {
        (Err(e), p) => (Err(ClassReadErrorView::AccessFlag(e)), p),
        (Ok(access_flags), at1) => match spec_read_u16(s, at1) {
            (Err(e), p) => (Err(ClassReadErrorView::IOError(e)), p),
            (Ok(this_index), at2) => match spec_resolve_class(
                pool,
                this_index as usize,
                ClassReadErrorView::InvalidClassReference,
            ) {
                Err(e) => (Err(e), at2),
                Ok(class_name) => match spec_read_u16(s, at2) {
                    (Err(e), p) => (Err(ClassReadErrorView::IOError(e)), p),
                    (Ok(super_index), at3) => match spec_super_name(pool, super_index) {
                        Err(e) => (Err(e), at3),
                        Ok(super_name) => match spec_read_interface_list(s, at3, pool) {
                            (Err(e), p) => (Err(e), p),
                            (Ok(interfaces), at4) => (
                                Ok(Names { access_flags, class_name, super_name, interfaces }),
                                at4,
                            ),
                        },
                    },
                },
            },
        },
    }
}

/// The superclass that the index `index` declares: none for 0, the resolved
/// class path otherwise.
pub open spec fn spec_super_name(pool: ConstantPoolView, index: u16) -> Result<
    Option<ClassPathView>,
    ClassReadErrorView,
> {
    if index == 0 {
        Ok(None)
    } else {
        match spec_resolve_class(pool, index as usize, ClassReadErrorView::InvalidClassReference) {
            Ok(path) => Ok(Some(path)),
            Err(e) => Err(e),
        }
    }
}

/// Outcome and next position of decoding a class file at `pos`: the
/// preamble with the constant pool, the declared names, the fields, the
/// methods and the attributes of the class. The first violation ends the
/// decoding.
pub open spec fn spec_read_class(s: Seq<u8>, pos: int) -> (
    Result<ClassView, ClassReadErrorView>,
    int,
) {
    match spec_read_preamble(s, pos) {
        (Err(e), p) => (Err(e), p),
        (Ok(preamble), at1) => match spec_read_names(s, at1, preamble.constant_pool) {
            (Err(e), p) => (Err(e), p),
            (Ok(names), at2) => match spec_read_member_list(s, at2, preamble.constant_pool) {
                (Err(e), p) => (Err(e), p),
                (Ok(fields), at3) => match spec_read_member_list(s, at3, preamble.constant_pool) {
                    (Err(e), p) => (Err(e), p),
                    (Ok(methods), at4) => match spec_read_all(
                        s,
                        at4,
                        Some(preamble.constant_pool),
                    ) {
                        (Err(e), p) => (Err(ClassReadErrorView::Attribute(e)), p),
                        (Ok(attributes), at5) => (
                            Ok(
                                ClassView {
                                    compiler_info: preamble.compiler_info,
                                    access_flags: names.access_flags,
                                    constant_pool: preamble.constant_pool,
                                    class_name: names.class_name,
                                    super_name: names.super_name,
                                    interfaces: names.interfaces,
                                    fields,
                                    methods,
                                    attributes,
                                },
                            ),
                            at5,
                        ),
                    },
                },
            },
        },
    }
}

/// The class that the bytes `bytes` hold: the class decoded from their start.
pub open spec fn spec_decode_class(bytes: Seq<u8>) -> Result<ClassView, ClassReadErrorView> {
    spec_read_class(bytes, 0).0
}

/// Resolves a constant index to a class path; `interface` selects the
/// failure that a chain of the wrong shape gives.
fn resolve_class(index: usize, constant_pool: &ConstantPool, interface: bool) -> (out: Result<
    ClassPath,
    ClassReadError,
>)
    ensures
        result_view(out) == spec_resolve_class(
            constant_pool@,
            index,
            if interface {
                ClassReadErrorView::InvalidInterfaceReference
            } else {
                ClassReadErrorView::InvalidClassReference
            },
        ),
{
    let fault = if interface {
        ClassReadError::InvalidInterfaceReference
    } else {
        ClassReadError::InvalidClassReference
    };
    match constant_pool.try_get(index) {
        Ok(Constant::Class { name_index }) => match constant_pool.try_get(*name_index as usize) {
            Ok(Constant::Utf8 { value }) => match ClassPath::parse(value.as_str()) {
                Ok(path) => Ok(path),
                Err(e) => Err(ClassReadError::ClassPath(e)),
            },
            _ => Err(fault),
        },
        _ => Err(fault),
    }
}

/// The class path that the constant index `index` refers to, through a
/// `Class` constant and the UTF-8 constant of its name. A chain of another
/// shape is an invalid class reference.
pub fn name_from_class_index(index: usize, constant_pool: &ConstantPool) -> (out: Result<
    ClassPath,
    ClassReadError,
>)
    ensures
        result_view(out) == spec_resolve_class(
            constant_pool@,
            index,
            ClassReadErrorView::InvalidClassReference,
        ),
{
    resolve_class(index, constant_pool, false)
}

/// Decodes a counted list of members.
fn read_member_list(r: &mut ByteCursor, constant_pool: &ConstantPool) -> (out: Result<
    Vec<Member>,
    ClassReadError,
>)
    ensures
        final(r).bytes() == old(r).bytes(),
        (
            match out {
                Ok(members) => Ok(members_view(members@)),
                Err(e) => Err(e@),
            },
            final(r).position(),
        ) == spec_read_member_list(old(r).bytes(), old(r).position(), constant_pool@),
        out matches Ok(members) ==> forall|i: int|
            0 <= i < members@.len() ==> (#[trigger] members@[i])@.wf(),
{
    let count = match r.read_u16() {
        Ok(v) => v as usize,
        Err(e) => return Err(ClassReadError::IOError(e)),
    };
    let mut members: Vec<Member> = Vec::new();
    let mut i: usize = 0;
    assert(members_view(members@) =~= Seq::empty());
    while i < count
        invariant
            i <= count,
            r.bytes() == old(r).bytes(),
            forall|j: int| 0 <= j < members@.len() ==> (#[trigger] members@[j])@.wf(),
            spec_read_member_list(old(r).bytes(), old(r).position(), constant_pool@)
                == spec_read_members(
                r.bytes(),
                r.position(),
                (count - i) as nat,
                members_view(members@),
                constant_pool@,
            ),
        decreases count - i,
    {
        let member = match Member::read_from(r, constant_pool) {
            Ok(member) => member,
            Err(e) => return Err(ClassReadError::Member(e)),
        };
        let ghost before = members@;
        let ghost value = member@;
        members.push(member);
        assert(members_view(members@) =~= members_view(before).push(value));
        i += 1;
    }
    Ok(members)
}

/// What [`read_names`] hands back: the declared names of a class.
struct DecodedNames {
    access_flags: AccessFlags,
    class_name: ClassPath,
    super_name: Option<ClassPath>,
    interfaces: Vec<ClassPath>,
}

impl DecodedNames {
    spec fn names(self) -> Names {
        Names {
            access_flags: self.access_flags@,
            class_name: self.class_name@,
            super_name: match self.super_name {
                Some(p) => Some(p@),
                None => None,
            },
            interfaces: paths_view(self.interfaces@),
        }
    }
}

/// Decodes the declaration part of a class file.
fn read_names(r: &mut ByteCursor, constant_pool: &ConstantPool) -> (out: Result<
    DecodedNames,
    ClassReadError,
>)
    ensures
        final(r).bytes() == old(r).bytes(),
        (
            match out {
                Ok(names) => Ok(names.names()),
                Err(e) => Err(e@),
            },
            final(r).position(),
        ) == spec_read_names(old(r).bytes(), old(r).position(), constant_pool@),
{
    let access_flags = match AccessFlags::read_from(r) {
        Ok(flags) => flags,
        Err(e) => return Err(ClassReadError::AccessFlag(e)),
    };
    let class_const_index = match r.read_u16() {
        Ok(v) => v as usize,
        Err(e) => return Err(ClassReadError::IOError(e)),
    };
    let class_name = match resolve_class(class_const_index, constant_pool, false) {
        Ok(path) => path,
        Err(e) => return Err(e),
    };
    let super_const_index = match r.read_u16() {
        Ok(v) => v as usize,
        Err(e) => return Err(ClassReadError::IOError(e)),
    };
    let super_name = if super_const_index != 0 {
        match resolve_class(super_const_index, constant_pool, false) {
            Ok(path) => Some(path),
            Err(e) => return Err(e),
        }
    } else {
        None
    };
    let interfaces = match read_interface_list(r, constant_pool) {
        Ok(interfaces) => interfaces,
        Err(e) => return Err(e),
    };
    Ok(DecodedNames { access_flags, class_name, super_name, interfaces })
}

/// Decodes the interface list: a `u16` count, then that many indices, each
/// resolved to a class path.
fn read_interface_list(r: &mut ByteCursor, constant_pool: &ConstantPool) -> (out: Result<
    Vec<ClassPath>,
    ClassReadError,
>)
    ensures
        final(r).bytes() == old(r).bytes(),
        (
            match out {
                Ok(interfaces) => Ok(paths_view(interfaces@)),
                Err(e) => Err(e@),
            },
            final(r).position(),
        ) == spec_read_interface_list(old(r).bytes(), old(r).position(), constant_pool@),
{
    let interface_count = match r.read_u16() {
        Ok(v) => v as usize,
        Err(e) => return Err(ClassReadError::IOError(e)),
    };
    let mut interfaces: Vec<ClassPath> = Vec::new();
    let mut i: usize = 0;
    assert(paths_view(interfaces@) =~= Seq::empty());
    while i < interface_count
        invariant
            i <= interface_count,
            r.bytes() == old(r).bytes(),
            spec_read_interface_list(old(r).bytes(), old(r).position(), constant_pool@)
                == spec_read_interfaces(
                r.bytes(),
                r.position(),
                (interface_count - i) as nat,
                paths_view(interfaces@),
                constant_pool@,
            ),
        decreases interface_count - i,
    {
        let interface_index = match r.read_u16() {
            Ok(v) => v as usize,
            Err(e) => return Err(ClassReadError::IOError(e)),
        };
        let interface_name = match resolve_class(interface_index, constant_pool, true) {
            Ok(path) => path,
            Err(e) => return Err(e),
        };
        let ghost before = interfaces@;
        let ghost value = interface_name@;
        interfaces.push(interface_name);
        assert(paths_view(interfaces@) =~= paths_view(before).push(value));
        i += 1;
    }
    Ok(interfaces)
}

/// Decodes the constant-pool section: the declared count, then constants
/// while the pool's running size is below the count.
fn read_pool(r: &mut ByteCursor) -> (out: Result<ConstantPool, ClassReadError>)
    ensures
        final(r).bytes() == old(r).bytes(),
        (result_view(out), final(r).position()) == spec_read_pool_section(
            old(r).bytes(),
            old(r).position(),
        ),
        out matches Ok(pool) ==> pool.wf(),
{
    let const_pool_size = match r.read_u16() {
        Ok(v) => v as usize,
        Err(e) => return Err(ClassReadError::IOError(e)),
    };
    let mut constant_pool = ConstantPool::with_capacity(const_pool_size);
    while constant_pool.size() < const_pool_size
        invariant
            r.bytes() == old(r).bytes(),
            const_pool_size <= u16::MAX,
            constant_pool.wf(),
            constant_pool@.size <= const_pool_size + 1,
            spec_read_pool_section(old(r).bytes(), old(r).position()) == spec_read_pool(
                r.bytes(),
                r.position(),
                const_pool_size as int,
                constant_pool@,
            ),
        decreases spec_slots_left(const_pool_size as int, constant_pool@),
    {
        let const_info = match Constant::read_from(r) {
            Ok(c) => c,
            Err(e) => return Err(ClassReadError::Constant(e)),
        };
        constant_pool.insert(const_info);
    }
    Ok(constant_pool)
}

impl Class {
    /// Decodes the class that `bytes` holds.
    pub fn read(bytes: &[u8]) -> (out: Result<Class, ClassReadError>)
        ensures
            result_view(out) == spec_decode_class(bytes@),
            out matches Ok(class) ==> class.valid(),
    {
        let mut r = ByteCursor::new(bytes);
        Class::read_from(&mut r)
    }

    /// The invariants of a decoded class: its pool was built by insertion,
    /// no attribute name occurs twice in a table of the class or of one of
    /// its members, and every array type in a descriptor has at least one
    /// dimension.
    pub open spec fn valid(&self) -> bool {
        &&& self.constant_pool.wf()
        &&& table_unique(self.attributes@)
        &&& forall|i: int| 0 <= i < self.fields@.len() ==> (#[trigger] self.fields@[i])@.wf()
        &&& forall|i: int| 0 <= i < self.methods@.len() ==> (#[trigger] self.methods@[i])@.wf()
    }

    /// Decodes a class file from the cursor in one sequential pass: magic
    /// signature, version, constant pool, access flags, the names of the
    /// class, of its superclass and of its interfaces, fields, methods, and
    /// class attributes. The first violation ends the decoding.
    pub fn read_from(r: &mut ByteCursor) -> (out: Result<Class, ClassReadError>)
        ensures
            final(r).bytes() == old(r).bytes(),
            (result_view(out), final(r).position()) == spec_read_class(
                old(r).bytes(),
                old(r).position(),
            ),
            out matches Ok(class) ==> class.valid(),
    {
        let magic_number = match r.read_u32() {
            Ok(v) => v,
            Err(e) => return Err(ClassReadError::IOError(e)),
        };
        if magic_number != CLASS_SIGNATURE {
            return Err(ClassReadError::InvalidMagic { found: magic_number });
        }
        let minor = match r.read_u16() {
            Ok(v) => v,
            Err(e) => return Err(ClassReadError::IOError(e)),
        };
        let major = match r.read_u16() {
            Ok(v) => v,
            Err(e) => return Err(ClassReadError::IOError(e)),
        };
        let constant_pool = match read_pool(r) {
            Ok(pool) => pool,
            Err(e) => return Err(e),
        };
        let names = match read_names(r, &constant_pool) {
            Ok(names) => names,
            Err(e) => return Err(e),
        };
        let fields = match read_member_list(r, &constant_pool) {
            Ok(members) => members,
            Err(e) => return Err(e),
        };
        let methods = match read_member_list(r, &constant_pool) {
            Ok(members) => members,
            Err(e) => return Err(e),
        };
        let attributes = match AttributeValue::read_all(r, Some(&constant_pool)) {
            Ok(attributes) => attributes,
            Err(e) => return Err(ClassReadError::Attribute(e)),
        };
        Ok(
            Class {
                compiler_info: CompilerInfo { major, minor, language: SourceLanguage::Java },
                access_flags: names.access_flags,
                constant_pool,
                class_name: names.class_name,
                super_name: names.super_name,
                interfaces: names.interfaces,
                fields,
                methods,
                attributes,
            },
        )
    }
}

/// Decoding is a function of the bytes: two classes decoded from the same
/// bytes are equal in every field of their value, which covers the access
/// flags, the names, the contents of the constant pool, the members and the
/// attribute tables.
pub proof fn lemma_decoding_is_idempotent(bytes: Seq<u8>, first: Class, second: Class)
    requires
        spec_decode_class(bytes) == Ok::<ClassView, ClassReadErrorView>(first@),
        spec_decode_class(bytes) == Ok::<ClassView, ClassReadErrorView>(second@),
    ensures
        first@ == second@,
        first@.access_flags == second@.access_flags,
        first@.class_name == second@.class_name,
        first@.super_name == second@.super_name,
        first@.interfaces == second@.interfaces,
        first@.constant_pool == second@.constant_pool,
        first@.fields == second@.fields,
        first@.methods == second@.methods,
        first@.attributes == second@.attributes,
{
}

} // verus!
