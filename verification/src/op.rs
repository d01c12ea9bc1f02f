//! The instruction set: one symbolic name and one fixed operand byte count
//! for each defined opcode byte.

use vstd::prelude::*;

verus! {

/// A defined opcode. Byte values without a variant are undefined.
#[derive(Debug, Copy, Clone, PartialEq, Eq, Hash, Structural)]
#[non_exhaustive]
pub enum Op {
    Aaload,
    Aastore,
    AconstNull,
    Aload,
    Aload0,
    Aload1,
    Aload2,
    Aload3,
    Anewarray,
    Areturn,
    Arraylength,
    Astore,
    Astore0,
    Astore1,
    Astore2,
    Astore3,
    Athrow,
    Baload,
    Bastore,
    Bipush,
    Breakpoint,
    Caload,
    Castore,
    Checkcast,
    D2f,
    D2i,
    D2l,
    Dadd,
    Daload,
    Dastore,
    Dcmpg,
    Dcmpl,
    Dconst0,
    Dconst1,
    Ddiv,
    Dload,
    Dload0,
    Dload1,
    Dload2,
    Dload3,
    Dmul,
    Dneg,
    Drem,
    Dreturn,
    Dstore,
    Dstore0,
    Dstore1,
    Dstore2,
    Dstore3,
    Dsub,
    Dup,
    DupX1,
    DupX2,
    Dup2,
    Dup2X1,
    Dup2X2,
    F2d,
    F2i,
    F2l,
    Fadd,
    Faload,
    Fastore,
    Fcmpg,
    Fcmpl,
    Fconst0,
    Fconst1,
    Fconst2,
    Fdiv,
    Fload,
    Fload0,
    Fload1,
    Fload2,
    Fload3,
    Fmul,
    Fneg,
    Frem,
    Freturn,
    Fstore,
    Fstore0,
    Fstore1,
    Fstore2,
    Fstore3,
    Fsub,
    Getfield,
    Getstatic,
    Goto,
    GotoW,
    I2b,
    I2c,
    I2d,
    I2f,
    I2l,
    I2s,
    Iadd,
    Iaload,
    Iand,
    Iastore,
    IconstM1,
    Iconst0,
    Iconst1,
    Iconst2,
    Iconst3,
    Iconst4,
    Iconst5,
    Idiv,
    IfAcmpeq,
    IfAcmpne,
    IfIcmpeq,
    IfIcmpge,
    IfIcmpgt,
    IfIcmple,
    IfIcmplt,
    IfIcmpne,
    Ifeq,
    Ifge,
    Ifgt,
    Ifle,
    Iflt,
    Ifne,
    Ifnonnull,
    Ifnull,
    Iinc,
    Iload,
    Iload0,
    Iload1,
    Iload2,
    Iload3,
    Impdep1,
    Impdep2,
    Imul,
    Ineg,
    Instanceof,
    Invokedynamic,
    Invokeinterface,
    Invokespecial,
    Invokestatic,
    Invokevirtual,
    Ior,
    Irem,
    Ireturn,
    Ishl,
    Ishr,
    Istore,
    Istore0,
    Istore1,
    Istore2,
    Istore3,
    Isub,
    Iushr,
    Ixor,
    L2d,
    L2f,
    L2i,
    Ladd,
    Laload,
    Land,
    Lastore,
    Lcmp,
    Lconst0,
    Lconst1,
    Ldc,
    LdcW,
    Ldc2W,
    Ldiv,
    Lload,
    Lload0,
    Lload1,
    Lload2,
    Lload3,
    Lmul,
    Lneg,
    Lookupswitch,
    Lor,
    Lrem,
    Lreturn,
    Lshl,
    Lshr,
    Lstore,
    Lstore0,
    Lstore1,
    Lstore2,
    Lstore3,
    Lsub,
    Lushr,
    Lxor,
    Monitorenter,
    Monitorexit,
    Multianewarray,
    New,
    Newarray,
    Nop,
    Pop,
    Pop2,
    Putfield,
    Putstatic,
    Return,
    Saload,
    Sastore,
    Sipush,
    Swap,
}

impl Op {
    /// The opcode with byte value `code`, if that value is defined.
    pub open spec fn spec_from_u8(code: u8) -> Option<Op> {
        match code {
            0x00u8 => Some(Op::Nop),
            0x01u8 => Some(Op::AconstNull),
            0x02u8 => Some(Op::IconstM1),
            0x03u8 => Some(Op::Iconst0),
            0x04u8 => Some(Op::Iconst1),
            0x05u8 => Some(Op::Iconst2),
            0x06u8 => Some(Op::Iconst3),
            0x07u8 => Some(Op::Iconst4),
            0x08u8 => Some(Op::Iconst5),
            0x09u8 => Some(Op::Lconst0),
            0x0au8 => Some(Op::Lconst1),
            0x0bu8 => Some(Op::Fconst0),
            0x0cu8 => Some(Op::Fconst1),
            0x0du8 => Some(Op::Fconst2),
            0x0eu8 => Some(Op::Dconst0),
            0x0fu8 => Some(Op::Dconst1),
            0x10u8 => Some(Op::Bipush),
            0x11u8 => Some(Op::Sipush),
            0x12u8 => Some(Op::Ldc),
            0x13u8 => Some(Op::LdcW),
            0x14u8 => Some(Op::Ldc2W),
            0x15u8 => Some(Op::Iload),
            0x16u8 => Some(Op::Lload),
            0x17u8 => Some(Op::Fload),
            0x18u8 => Some(Op::Dload),
            0x19u8 => Some(Op::Aload),
            0x1au8 => Some(Op::Iload0),
            0x1bu8 => Some(Op::Iload1),
            0x1cu8 => Some(Op::Iload2),
            0x1du8 => Some(Op::Iload3),
            0x1eu8 => Some(Op::Lload0),
            0x1fu8 => Some(Op::Lload1),
            0x20u8 => Some(Op::Lload2),
            0x21u8 => Some(Op::Lload3),
            0x22u8 => Some(Op::Fload0),
            0x23u8 => Some(Op::Fload1),
            0x24u8 => Some(Op::Fload2),
            0x25u8 => Some(Op::Fload3),
            0x26u8 => Some(Op::Dload0),
            0x27u8 => Some(Op::Dload1),
            0x28u8 => Some(Op::Dload2),
            0x29u8 => Some(Op::Dload3),
            0x2au8 => Some(Op::Aload0),
            0x2bu8 => Some(Op::Aload1),
            0x2cu8 => Some(Op::Aload2),
            0x2du8 => Some(Op::Aload3),
            0x2eu8 => Some(Op::Iaload),
            0x2fu8 => Some(Op::Laload),
            0x30u8 => Some(Op::Faload),
            0x31u8 => Some(Op::Daload),
            0x32u8 => Some(Op::Aaload),
            0x33u8 => Some(Op::Baload),
            0x34u8 => Some(Op::Caload),
            0x35u8 => Some(Op::Saload),
            0x36u8 => Some(Op::Istore),
            0x37u8 => Some(Op::Lstore),
            0x38u8 => Some(Op::Fstore),
            0x39u8 => Some(Op::Dstore),
            0x3au8 => Some(Op::Astore),
            0x3bu8 => Some(Op::Istore0),
            0x3cu8 => Some(Op::Istore1),
            0x3du8 => Some(Op::Istore2),
            0x3eu8 => Some(Op::Istore3),
            0x3fu8 => Some(Op::Lstore0),
            0x40u8 => Some(Op::Lstore1),
            0x41u8 => Some(Op::Lstore2),
            0x42u8 => Some(Op::Lstore3),
            0x43u8 => Some(Op::Fstore0),
            0x44u8 => Some(Op::Fstore1),
            0x45u8 => Some(Op::Fstore2),
            0x46u8 => Some(Op::Fstore3),
            0x47u8 => Some(Op::Dstore0),
            0x48u8 => Some(Op::Dstore1),
            0x49u8 => Some(Op::Dstore2),
            0x4au8 => Some(Op::Dstore3),
            0x4bu8 => Some(Op::Astore0),
            0x4cu8 => Some(Op::Astore1),
            0x4du8 => Some(Op::Astore2),
            0x4eu8 => Some(Op::Astore3),
            0x4fu8 => Some(Op::Iastore),
            0x50u8 => Some(Op::Lastore),
            0x51u8 => Some(Op::Fastore),
            0x52u8 => Some(Op::Dastore),
            0x53u8 => Some(Op::Aastore),
            0x54u8 => Some(Op::Bastore),
            0x55u8 => Some(Op::Castore),
            0x56u8 => Some(Op::Sastore),
            0x57u8 => Some(Op::Pop),
            0x58u8 => Some(Op::Pop2),
            0x59u8 => Some(Op::Dup),
            0x5au8 => Some(Op::DupX1),
            0x5bu8 => Some(Op::DupX2),
            0x5cu8 => Some(Op::Dup2),
            0x5du8 => Some(Op::Dup2X1),
            0x5eu8 => Some(Op::Dup2X2),
            0x5fu8 => Some(Op::Swap),
            0x60u8 => Some(Op::Iadd),
            0x61u8 => Some(Op::Ladd),
            0x62u8 => Some(Op::Fadd),
            0x63u8 => Some(Op::Dadd),
            0x64u8 => Some(Op::Isub),
            0x65u8 => Some(Op::Lsub),
            0x66u8 => Some(Op::Fsub),
            0x67u8 => Some(Op::Dsub),
            0x68u8 => Some(Op::Imul),
            0x69u8 => Some(Op::Lmul),
            0x6au8 => Some(Op::Fmul),
            0x6bu8 => Some(Op::Dmul),
            0x6cu8 => Some(Op::Idiv),
            0x6du8 => Some(Op::Ldiv),
            0x6eu8 => Some(Op::Fdiv),
            0x6fu8 => Some(Op::Ddiv),
            0x70u8 => Some(Op::Irem),
            0x71u8 => Some(Op::Lrem),
            0x72u8 => Some(Op::Frem),
            0x73u8 => Some(Op::Drem),
            0x74u8 => Some(Op::Ineg),
            0x75u8 => Some(Op::Lneg),
            0x76u8 => Some(Op::Fneg),
            0x77u8 => Some(Op::Dneg),
            0x78u8 => Some(Op::Ishl),
            0x79u8 => Some(Op::Lshl),
            0x7au8 => Some(Op::Ishr),
            0x7bu8 => Some(Op::Lshr),
            0x7cu8 => Some(Op::Iushr),
            0x7du8 => Some(Op::Lushr),
            0x7eu8 => Some(Op::Iand),
            0x7fu8 => Some(Op::Land),
            0x80u8 => Some(Op::Ior),
            0x81u8 => Some(Op::Lor),
            0x82u8 => Some(Op::Ixor),
            0x83u8 => Some(Op::Lxor),
            0x84u8 => Some(Op::Iinc),
            0x85u8 => Some(Op::I2l),
            0x86u8 => Some(Op::I2f),
            0x87u8 => Some(Op::I2d),
            0x88u8 => Some(Op::L2i),
            0x89u8 => Some(Op::L2f),
            0x8au8 => Some(Op::L2d),
            0x8bu8 => Some(Op::F2i),
            0x8cu8 => Some(Op::F2l),
            0x8du8 => Some(Op::F2d),
            0x8eu8 => Some(Op::D2i),
            0x8fu8 => Some(Op::D2l),
            0x90u8 => Some(Op::D2f),
            0x91u8 => Some(Op::I2b),
            0x92u8 => Some(Op::I2c),
            0x93u8 => Some(Op::I2s),
            0x94u8 => Some(Op::Lcmp),
            0x95u8 => Some(Op::Fcmpl),
            0x96u8 => Some(Op::Fcmpg),
            0x97u8 => Some(Op::Dcmpl),
            0x98u8 => Some(Op::Dcmpg),
            0x99u8 => Some(Op::Ifeq),
            0x9au8 => Some(Op::Ifne),
            0x9bu8 => Some(Op::Iflt),
            0x9cu8 => Some(Op::Ifge),
            0x9du8 => Some(Op::Ifgt),
            0x9eu8 => Some(Op::Ifle),
            0x9fu8 => Some(Op::IfIcmpeq),
            0xa0u8 => Some(Op::IfIcmpne),
            0xa1u8 => Some(Op::IfIcmplt),
            0xa2u8 => Some(Op::IfIcmpge),
            0xa3u8 => Some(Op::IfIcmpgt),
            0xa4u8 => Some(Op::IfIcmple),
            0xa5u8 => Some(Op::IfAcmpeq),
            0xa6u8 => Some(Op::IfAcmpne),
            0xa7u8 => Some(Op::Goto),
            0xabu8 => Some(Op::Lookupswitch),
            0xacu8 => Some(Op::Ireturn),
            0xadu8 => Some(Op::Lreturn),
            0xaeu8 => Some(Op::Freturn),
            0xafu8 => Some(Op::Dreturn),
            0xb0u8 => Some(Op::Areturn),
            0xb1u8 => Some(Op::Return),
            0xb2u8 => Some(Op::Getstatic),
            0xb3u8 => Some(Op::Putstatic),
            0xb4u8 => Some(Op::Getfield),
            0xb5u8 => Some(Op::Putfield),
            0xb6u8 => Some(Op::Invokevirtual),
            0xb7u8 => Some(Op::Invokespecial),
            0xb8u8 => Some(Op::Invokestatic),
            0xb9u8 => Some(Op::Invokeinterface),
            0xbau8 => Some(Op::Invokedynamic),
            0xbbu8 => Some(Op::New),
            0xbcu8 => Some(Op::Newarray),
            0xbdu8 => Some(Op::Anewarray),
            0xbeu8 => Some(Op::Arraylength),
            0xbfu8 => Some(Op::Athrow),
            0xc0u8 => Some(Op::Checkcast),
            0xc1u8 => Some(Op::Instanceof),
            0xc2u8 => Some(Op::Monitorenter),
            0xc3u8 => Some(Op::Monitorexit),
            0xc5u8 => Some(Op::Multianewarray),
            0xc6u8 => Some(Op::Ifnull),
            0xc7u8 => Some(Op::Ifnonnull),
            0xc8u8 => Some(Op::GotoW),
            0xcau8 => Some(Op::Breakpoint),
            0xfeu8 => Some(Op::Impdep1),
            0xffu8 => Some(Op::Impdep2),
            _ => None,
        }
    }

    /// The byte value of the opcode.
    pub open spec fn spec_code(self) -> u8 {
        match self {
            Op::Aaload => 0x32,
            Op::Aastore => 0x53,
            Op::AconstNull => 0x01,
            Op::Aload => 0x19,
            Op::Aload0 => 0x2a,
            Op::Aload1 => 0x2b,
            Op::Aload2 => 0x2c,
            Op::Aload3 => 0x2d,
            Op::Anewarray => 0xbd,
            Op::Areturn => 0xb0,
            Op::Arraylength => 0xbe,
            Op::Astore => 0x3a,
            Op::Astore0 => 0x4b,
            Op::Astore1 => 0x4c,
            Op::Astore2 => 0x4d,
            Op::Astore3 => 0x4e,
            Op::Athrow => 0xbf,
            Op::Baload => 0x33,
            Op::Bastore => 0x54,
            Op::Bipush => 0x10,
            Op::Breakpoint => 0xca,
            Op::Caload => 0x34,
            Op::Castore => 0x55,
            Op::Checkcast => 0xc0,
            Op::D2f => 0x90,
            Op::D2i => 0x8e,
            Op::D2l => 0x8f,
            Op::Dadd => 0x63,
            Op::Daload => 0x31,
            Op::Dastore => 0x52,
            Op::Dcmpg => 0x98,
            Op::Dcmpl => 0x97,
            Op::Dconst0 => 0x0e,
            Op::Dconst1 => 0x0f,
            Op::Ddiv => 0x6f,
            Op::Dload => 0x18,
            Op::Dload0 => 0x26,
            Op::Dload1 => 0x27,
            Op::Dload2 => 0x28,
            Op::Dload3 => 0x29,
            Op::Dmul => 0x6b,
            Op::Dneg => 0x77,
            Op::Drem => 0x73,
            Op::Dreturn => 0xaf,
            Op::Dstore => 0x39,
            Op::Dstore0 => 0x47,
            Op::Dstore1 => 0x48,
            Op::Dstore2 => 0x49,
            Op::Dstore3 => 0x4a,
            Op::Dsub => 0x67,
            Op::Dup => 0x59,
            Op::DupX1 => 0x5a,
            Op::DupX2 => 0x5b,
            Op::Dup2 => 0x5c,
            Op::Dup2X1 => 0x5d,
            Op::Dup2X2 => 0x5e,
            Op::F2d => 0x8d,
            Op::F2i => 0x8b,
            Op::F2l => 0x8c,
            Op::Fadd => 0x62,
            Op::Faload => 0x30,
            Op::Fastore => 0x51,
            Op::Fcmpg => 0x96,
            Op::Fcmpl => 0x95,
            Op::Fconst0 => 0x0b,
            Op::Fconst1 => 0x0c,
            Op::Fconst2 => 0x0d,
            Op::Fdiv => 0x6e,
            Op::Fload => 0x17,
            Op::Fload0 => 0x22,
            Op::Fload1 => 0x23,
            Op::Fload2 => 0x24,
            Op::Fload3 => 0x25,
            Op::Fmul => 0x6a,
            Op::Fneg => 0x76,
            Op::Frem => 0x72,
            Op::Freturn => 0xae,
            Op::Fstore => 0x38,
            Op::Fstore0 => 0x43,
            Op::Fstore1 => 0x44,
            Op::Fstore2 => 0x45,
            Op::Fstore3 => 0x46,
            Op::Fsub => 0x66,
            Op::Getfield => 0xb4,
            Op::Getstatic => 0xb2,
            Op::Goto => 0xa7,
            Op::GotoW => 0xc8,
            Op::I2b => 0x91,
            Op::I2c => 0x92,
            Op::I2d => 0x87,
            Op::I2f => 0x86,
            Op::I2l => 0x85,
            Op::I2s => 0x93,
            Op::Iadd => 0x60,
            Op::Iaload => 0x2e,
            Op::Iand => 0x7e,
            Op::Iastore => 0x4f,
            Op::IconstM1 => 0x02,
            Op::Iconst0 => 0x03,
            Op::Iconst1 => 0x04,
            Op::Iconst2 => 0x05,
            Op::Iconst3 => 0x06,
            Op::Iconst4 => 0x07,
            Op::Iconst5 => 0x08,
            Op::Idiv => 0x6c,
            Op::IfAcmpeq => 0xa5,
            Op::IfAcmpne => 0xa6,
            Op::IfIcmpeq => 0x9f,
            Op::IfIcmpge => 0xa2,
            Op::IfIcmpgt => 0xa3,
            Op::IfIcmple => 0xa4,
            Op::IfIcmplt => 0xa1,
            Op::IfIcmpne => 0xa0,
            Op::Ifeq => 0x99,
            Op::Ifge => 0x9c,
            Op::Ifgt => 0x9d,
            Op::Ifle => 0x9e,
            Op::Iflt => 0x9b,
            Op::Ifne => 0x9a,
            Op::Ifnonnull => 0xc7,
            Op::Ifnull => 0xc6,
            Op::Iinc => 0x84,
            Op::Iload => 0x15,
            Op::Iload0 => 0x1a,
            Op::Iload1 => 0x1b,
            Op::Iload2 => 0x1c,
            Op::Iload3 => 0x1d,
            Op::Impdep1 => 0xfe,
            Op::Impdep2 => 0xff,
            Op::Imul => 0x68,
            Op::Ineg => 0x74,
            Op::Instanceof => 0xc1,
            Op::Invokedynamic => 0xba,
            Op::Invokeinterface => 0xb9,
            Op::Invokespecial => 0xb7,
            Op::Invokestatic => 0xb8,
            Op::Invokevirtual => 0xb6,
            Op::Ior => 0x80,
            Op::Irem => 0x70,
            Op::Ireturn => 0xac,
            Op::Ishl => 0x78,
            Op::Ishr => 0x7a,
            Op::Istore => 0x36,
            Op::Istore0 => 0x3b,
            Op::Istore1 => 0x3c,
            Op::Istore2 => 0x3d,
            Op::Istore3 => 0x3e,
            Op::Isub => 0x64,
            Op::Iushr => 0x7c,
            Op::Ixor => 0x82,
            Op::L2d => 0x8a,
            Op::L2f => 0x89,
            Op::L2i => 0x88,
            Op::Ladd => 0x61,
            Op::Laload => 0x2f,
            Op::Land => 0x7f,
            Op::Lastore => 0x50,
            Op::Lcmp => 0x94,
            Op::Lconst0 => 0x09,
            Op::Lconst1 => 0x0a,
            Op::Ldc => 0x12,
            Op::LdcW => 0x13,
            Op::Ldc2W => 0x14,
            Op::Ldiv => 0x6d,
            Op::Lload => 0x16,
            Op::Lload0 => 0x1e,
            Op::Lload1 => 0x1f,
            Op::Lload2 => 0x20,
            Op::Lload3 => 0x21,
            Op::Lmul => 0x69,
            Op::Lneg => 0x75,
            Op::Lookupswitch => 0xab,
            Op::Lor => 0x81,
            Op::Lrem => 0x71,
            Op::Lreturn => 0xad,
            Op::Lshl => 0x79,
            Op::Lshr => 0x7b,
            Op::Lstore => 0x37,
            Op::Lstore0 => 0x3f,
            Op::Lstore1 => 0x40,
            Op::Lstore2 => 0x41,
            Op::Lstore3 => 0x42,
            Op::Lsub => 0x65,
            Op::Lushr => 0x7d,
            Op::Lxor => 0x83,
            Op::Monitorenter => 0xc2,
            Op::Monitorexit => 0xc3,
            Op::Multianewarray => 0xc5,
            Op::New => 0xbb,
            Op::Newarray => 0xbc,
            Op::Nop => 0x00,
            Op::Pop => 0x57,
            Op::Pop2 => 0x58,
            Op::Putfield => 0xb5,
            Op::Putstatic => 0xb3,
            Op::Return => 0xb1,
            Op::Saload => 0x35,
            Op::Sastore => 0x56,
            Op::Sipush => 0x11,
            Op::Swap => 0x5f,
        }
    }

    /// The number of operand bytes that follow the opcode.
    pub open spec fn spec_argc(self) -> usize {
        match self {
            Op::Aload => 1,
            Op::Anewarray => 2,
            Op::Astore => 1,
            Op::Bipush => 1,
            Op::Checkcast => 2,
            Op::Dload => 1,
            Op::Dstore => 1,
            Op::Fload => 1,
            Op::Fstore => 1,
            Op::Getfield => 2,
            Op::Getstatic => 2,
            Op::Goto => 2,
            Op::GotoW => 4,
            Op::IfAcmpeq => 2,
            Op::IfAcmpne => 2,
            Op::IfIcmpeq => 2,
            Op::IfIcmpge => 2,
            Op::IfIcmpgt => 2,
            Op::IfIcmple => 2,
            Op::IfIcmplt => 2,
            Op::IfIcmpne => 2,
            Op::Ifeq => 2,
            Op::Ifge => 2,
            Op::Ifgt => 2,
            Op::Ifle => 2,
            Op::Iflt => 2,
            Op::Ifne => 2,
            Op::Ifnonnull => 2,
            Op::Ifnull => 2,
            Op::Iinc => 2,
            Op::Iload => 1,
            Op::Instanceof => 2,
            Op::Invokedynamic => 4,
            Op::Invokeinterface => 4,
            Op::Invokespecial => 2,
            Op::Invokestatic => 2,
            Op::Invokevirtual => 2,
            Op::Istore => 1,
            Op::Ldc => 1,
            Op::LdcW => 2,
            Op::Ldc2W => 2,
            Op::Lload => 1,
            Op::Lstore => 1,
            Op::Multianewarray => 3,
            Op::New => 2,
            Op::Newarray => 1,
            Op::Putfield => 2,
            Op::Putstatic => 2,
            Op::Sipush => 2,
            _ => 0,
        }
    }

    /// The mnemonic of the opcode.
    pub open spec fn spec_name(self) -> Seq<char> {
        match self {
            Op::Aaload => "aaload"@,
            Op::Aastore => "aastore"@,
            Op::AconstNull => "aconst_null"@,
            Op::Aload => "aload"@,
            Op::Aload0 => "aload_0"@,
            Op::Aload1 => "aload_1"@,
            Op::Aload2 => "aload_2"@,
            Op::Aload3 => "aload_3"@,
            Op::Anewarray => "anewarray"@,
            Op::Areturn => "areturn"@,
            Op::Arraylength => "arraylength"@,
            Op::Astore => "astore"@,
            Op::Astore0 => "astore_0"@,
            Op::Astore1 => "astore_1"@,
            Op::Astore2 => "astore_2"@,
            Op::Astore3 => "astore_3"@,
            Op::Athrow => "athrow"@,
            Op::Baload => "baload"@,
            Op::Bastore => "bastore"@,
            Op::Bipush => "bipush"@,
            Op::Breakpoint => "breakpoint"@,
            Op::Caload => "caload"@,
            Op::Castore => "castore"@,
            Op::Checkcast => "checkcast"@,
            Op::D2f => "d_2f"@,
            Op::D2i => "d_2i"@,
            Op::D2l => "d_2l"@,
            Op::Dadd => "dadd"@,
            Op::Daload => "daload"@,
            Op::Dastore => "dastore"@,
            Op::Dcmpg => "dcmpg"@,
            Op::Dcmpl => "dcmpl"@,
            Op::Dconst0 => "dconst_0"@,
            Op::Dconst1 => "dconst_1"@,
            Op::Ddiv => "ddiv"@,
            Op::Dload => "dload"@,
            Op::Dload0 => "dload_0"@,
            Op::Dload1 => "dload_1"@,
            Op::Dload2 => "dload_2"@,
            Op::Dload3 => "dload_3"@,
            Op::Dmul => "dmul"@,
            Op::Dneg => "dneg"@,
            Op::Drem => "drem"@,
            Op::Dreturn => "dreturn"@,
            Op::Dstore => "dstore"@,
            Op::Dstore0 => "dstore_0"@,
            Op::Dstore1 => "dstore_1"@,
            Op::Dstore2 => "dstore_2"@,
            Op::Dstore3 => "dstore_3"@,
            Op::Dsub => "dsub"@,
            Op::Dup => "dup"@,
            Op::DupX1 => "dupX1"@,
            Op::DupX2 => "dupX2"@,
            Op::Dup2 => "dup_2"@,
            Op::Dup2X1 => "dup2X1"@,
            Op::Dup2X2 => "dup2X2"@,
            Op::F2d => "f_2d"@,
            Op::F2i => "f_2i"@,
            Op::F2l => "f_2l"@,
            Op::Fadd => "fadd"@,
            Op::Faload => "faload"@,
            Op::Fastore => "fastore"@,
            Op::Fcmpg => "fcmpg"@,
            Op::Fcmpl => "fcmpl"@,
            Op::Fconst0 => "fconst_0"@,
            Op::Fconst1 => "fconst_1"@,
            Op::Fconst2 => "fconst_2"@,
            Op::Fdiv => "fdiv"@,
            Op::Fload => "fload"@,
            Op::Fload0 => "fload_0"@,
            Op::Fload1 => "fload_1"@,
            Op::Fload2 => "fload_2"@,
            Op::Fload3 => "fload_3"@,
            Op::Fmul => "fmul"@,
            Op::Fneg => "fneg"@,
            Op::Frem => "frem"@,
            Op::Freturn => "freturn"@,
            Op::Fstore => "fstore"@,
            Op::Fstore0 => "fstore_0"@,
            Op::Fstore1 => "fstore_1"@,
            Op::Fstore2 => "fstore_2"@,
            Op::Fstore3 => "fstore_3"@,
            Op::Fsub => "fsub"@,
            Op::Getfield => "getfield"@,
            Op::Getstatic => "getstatic"@,
            Op::Goto => "goto"@,
            Op::GotoW => "goto_w"@,
            Op::I2b => "i_2b"@,
            Op::I2c => "i_2c"@,
            Op::I2d => "i_2d"@,
            Op::I2f => "i_2f"@,
            Op::I2l => "i_2l"@,
            Op::I2s => "i_2s"@,
            Op::Iadd => "iadd"@,
            Op::Iaload => "iaload"@,
            Op::Iand => "iand"@,
            Op::Iastore => "iastore"@,
            Op::IconstM1 => "iconstM1"@,
            Op::Iconst0 => "iconst_0"@,
            Op::Iconst1 => "iconst_1"@,
            Op::Iconst2 => "iconst_2"@,
            Op::Iconst3 => "iconst_3"@,
            Op::Iconst4 => "iconst_4"@,
            Op::Iconst5 => "iconst_5"@,
            Op::Idiv => "idiv"@,
            Op::IfAcmpeq => "if_acmpeq"@,
            Op::IfAcmpne => "if_acmpne"@,
            Op::IfIcmpeq => "if_icmpeq"@,
            Op::IfIcmpge => "if_icmpge"@,
            Op::IfIcmpgt => "if_icmpgt"@,
            Op::IfIcmple => "if_icmple"@,
            Op::IfIcmplt => "if_icmplt"@,
            Op::IfIcmpne => "if_icmpne"@,
            Op::Ifeq => "ifeq"@,
            Op::Ifge => "ifge"@,
            Op::Ifgt => "ifgt"@,
            Op::Ifle => "ifle"@,
            Op::Iflt => "iflt"@,
            Op::Ifne => "ifne"@,
            Op::Ifnonnull => "ifnonnull"@,
            Op::Ifnull => "ifnull"@,
            Op::Iinc => "iinc"@,
            Op::Iload => "iload"@,
            Op::Iload0 => "iload_0"@,
            Op::Iload1 => "iload_1"@,
            Op::Iload2 => "iload_2"@,
            Op::Iload3 => "iload_3"@,
            Op::Impdep1 => "impdep_1"@,
            Op::Impdep2 => "impdep_2"@,
            Op::Imul => "imul"@,
            Op::Ineg => "ineg"@,
            Op::Instanceof => "instanceof"@,
            Op::Invokedynamic => "invokedynamic"@,
            Op::Invokeinterface => "invokeinterface"@,
            Op::Invokespecial => "invokespecial"@,
            Op::Invokestatic => "invokestatic"@,
            Op::Invokevirtual => "invokevirtual"@,
            Op::Ior => "ior"@,
            Op::Irem => "irem"@,
            Op::Ireturn => "ireturn"@,
            Op::Ishl => "ishl"@,
            Op::Ishr => "ishr"@,
            Op::Istore => "istore"@,
            Op::Istore0 => "istore_0"@,
            Op::Istore1 => "istore_1"@,
            Op::Istore2 => "istore_2"@,
            Op::Istore3 => "istore_3"@,
            Op::Isub => "isub"@,
            Op::Iushr => "iushr"@,
            Op::Ixor => "ixor"@,
            Op::L2d => "l_2d"@,
            Op::L2f => "l_2f"@,
            Op::L2i => "l_2i"@,
            Op::Ladd => "ladd"@,
            Op::Laload => "laload"@,
            Op::Land => "land"@,
            Op::Lastore => "lastore"@,
            Op::Lcmp => "lcmp"@,
            Op::Lconst0 => "lconst_0"@,
            Op::Lconst1 => "lconst_1"@,
            Op::Ldc => "ldc"@,
            Op::LdcW => "ldc_w"@,
            Op::Ldc2W => "ldc2W"@,
            Op::Ldiv => "ldiv"@,
            Op::Lload => "lload"@,
            Op::Lload0 => "lload_0"@,
            Op::Lload1 => "lload_1"@,
            Op::Lload2 => "lload_2"@,
            Op::Lload3 => "lload_3"@,
            Op::Lmul => "lmul"@,
            Op::Lneg => "lneg"@,
            Op::Lookupswitch => "lookupswitch"@,
            Op::Lor => "lor"@,
            Op::Lrem => "lrem"@,
            Op::Lreturn => "lreturn"@,
            Op::Lshl => "lshl"@,
            Op::Lshr => "lshr"@,
            Op::Lstore => "lstore"@,
            Op::Lstore0 => "lstore_0"@,
            Op::Lstore1 => "lstore_1"@,
            Op::Lstore2 => "lstore_2"@,
            Op::Lstore3 => "lstore_3"@,
            Op::Lsub => "lsub"@,
            Op::Lushr => "lushr"@,
            Op::Lxor => "lxor"@,
            Op::Monitorenter => "monitorenter"@,
            Op::Monitorexit => "monitorexit"@,
            Op::Multianewarray => "multianewarray"@,
            Op::New => "new"@,
            Op::Newarray => "newarray"@,
            Op::Nop => "nop"@,
            Op::Pop => "pop"@,
            Op::Pop2 => "pop_2"@,
            Op::Putfield => "putfield"@,
            Op::Putstatic => "putstatic"@,
            Op::Return => "return"@,
            Op::Saload => "saload"@,
            Op::Sastore => "sastore"@,
            Op::Sipush => "sipush"@,
            Op::Swap => "swap"@,
        }
    }

    /// The opcode with byte value `code`; `None` for an undefined value.
    pub fn from_u8(code: u8) -> (r: Option<Op>)
        ensures
            r == Self::spec_from_u8(code),
            r matches Some(op) ==> op.spec_code() == code,
    {
        match code {
            0x00 => Some(Op::Nop),
            0x01 => Some(Op::AconstNull),
            0x02 => Some(Op::IconstM1),
            0x03 => Some(Op::Iconst0),
            0x04 => Some(Op::Iconst1),
            0x05 => Some(Op::Iconst2),
            0x06 => Some(Op::Iconst3),
            0x07 => Some(Op::Iconst4),
            0x08 => Some(Op::Iconst5),
            0x09 => Some(Op::Lconst0),
            0x0a => Some(Op::Lconst1),
            0x0b => Some(Op::Fconst0),
            0x0c => Some(Op::Fconst1),
            0x0d => Some(Op::Fconst2),
            0x0e => Some(Op::Dconst0),
            0x0f => Some(Op::Dconst1),
            0x10 => Some(Op::Bipush),
            0x11 => Some(Op::Sipush),
            0x12 => Some(Op::Ldc),
            0x13 => Some(Op::LdcW),
            0x14 => Some(Op::Ldc2W),
            0x15 => Some(Op::Iload),
            0x16 => Some(Op::Lload),
            0x17 => Some(Op::Fload),
            0x18 => Some(Op::Dload),
            0x19 => Some(Op::Aload),
            0x1a => Some(Op::Iload0),
            0x1b => Some(Op::Iload1),
            0x1c => Some(Op::Iload2),
            0x1d => Some(Op::Iload3),
            0x1e => Some(Op::Lload0),
            0x1f => Some(Op::Lload1),
            0x20 => Some(Op::Lload2),
            0x21 => Some(Op::Lload3),
            0x22 => Some(Op::Fload0),
            0x23 => Some(Op::Fload1),
            0x24 => Some(Op::Fload2),
            0x25 => Some(Op::Fload3),
            0x26 => Some(Op::Dload0),
            0x27 => Some(Op::Dload1),
            0x28 => Some(Op::Dload2),
            0x29 => Some(Op::Dload3),
            0x2a => Some(Op::Aload0),
            0x2b => Some(Op::Aload1),
            0x2c => Some(Op::Aload2),
            0x2d => Some(Op::Aload3),
            0x2e => Some(Op::Iaload),
            0x2f => Some(Op::Laload),
            0x30 => Some(Op::Faload),
            0x31 => Some(Op::Daload),
            0x32 => Some(Op::Aaload),
            0x33 => Some(Op::Baload),
            0x34 => Some(Op::Caload),
            0x35 => Some(Op::Saload),
            0x36 => Some(Op::Istore),
            0x37 => Some(Op::Lstore),
            0x38 => Some(Op::Fstore),
            0x39 => Some(Op::Dstore),
            0x3a => Some(Op::Astore),
            0x3b => Some(Op::Istore0),
            0x3c => Some(Op::Istore1),
            0x3d => Some(Op::Istore2),
            0x3e => Some(Op::Istore3),
            0x3f => Some(Op::Lstore0),
            0x40 => Some(Op::Lstore1),
            0x41 => Some(Op::Lstore2),
            0x42 => Some(Op::Lstore3),
            0x43 => Some(Op::Fstore0),
            0x44 => Some(Op::Fstore1),
            0x45 => Some(Op::Fstore2),
            0x46 => Some(Op::Fstore3),
            0x47 => Some(Op::Dstore0),
            0x48 => Some(Op::Dstore1),
            0x49 => Some(Op::Dstore2),
            0x4a => Some(Op::Dstore3),
            0x4b => Some(Op::Astore0),
            0x4c => Some(Op::Astore1),
            0x4d => Some(Op::Astore2),
            0x4e => Some(Op::Astore3),
            0x4f => Some(Op::Iastore),
            0x50 => Some(Op::Lastore),
            0x51 => Some(Op::Fastore),
            0x52 => Some(Op::Dastore),
            0x53 => Some(Op::Aastore),
            0x54 => Some(Op::Bastore),
            0x55 => Some(Op::Castore),
            0x56 => Some(Op::Sastore),
            0x57 => Some(Op::Pop),
            0x58 => Some(Op::Pop2),
            0x59 => Some(Op::Dup),
            0x5a => Some(Op::DupX1),
            0x5b => Some(Op::DupX2),
            0x5c => Some(Op::Dup2),
            0x5d => Some(Op::Dup2X1),
            0x5e => Some(Op::Dup2X2),
            0x5f => Some(Op::Swap),
            0x60 => Some(Op::Iadd),
            0x61 => Some(Op::Ladd),
            0x62 => Some(Op::Fadd),
            0x63 => Some(Op::Dadd),
            0x64 => Some(Op::Isub),
            0x65 => Some(Op::Lsub),
            0x66 => Some(Op::Fsub),
            0x67 => Some(Op::Dsub),
            0x68 => Some(Op::Imul),
            0x69 => Some(Op::Lmul),
            0x6a => Some(Op::Fmul),
            0x6b => Some(Op::Dmul),
            0x6c => Some(Op::Idiv),
            0x6d => Some(Op::Ldiv),
            0x6e => Some(Op::Fdiv),
            0x6f => Some(Op::Ddiv),
            0x70 => Some(Op::Irem),
            0x71 => Some(Op::Lrem),
            0x72 => Some(Op::Frem),
            0x73 => Some(Op::Drem),
            0x74 => Some(Op::Ineg),
            0x75 => Some(Op::Lneg),
            0x76 => Some(Op::Fneg),
            0x77 => Some(Op::Dneg),
            0x78 => Some(Op::Ishl),
            0x79 => Some(Op::Lshl),
            0x7a => Some(Op::Ishr),
            0x7b => Some(Op::Lshr),
            0x7c => Some(Op::Iushr),
            0x7d => Some(Op::Lushr),
            0x7e => Some(Op::Iand),
            0x7f => Some(Op::Land),
            0x80 => Some(Op::Ior),
            0x81 => Some(Op::Lor),
            0x82 => Some(Op::Ixor),
            0x83 => Some(Op::Lxor),
            0x84 => Some(Op::Iinc),
            0x85 => Some(Op::I2l),
            0x86 => Some(Op::I2f),
            0x87 => Some(Op::I2d),
            0x88 => Some(Op::L2i),
            0x89 => Some(Op::L2f),
            0x8a => Some(Op::L2d),
            0x8b => Some(Op::F2i),
            0x8c => Some(Op::F2l),
            0x8d => Some(Op::F2d),
            0x8e => Some(Op::D2i),
            0x8f => Some(Op::D2l),
            0x90 => Some(Op::D2f),
            0x91 => Some(Op::I2b),
            0x92 => Some(Op::I2c),
            0x93 => Some(Op::I2s),
            0x94 => Some(Op::Lcmp),
            0x95 => Some(Op::Fcmpl),
            0x96 => Some(Op::Fcmpg),
            0x97 => Some(Op::Dcmpl),
            0x98 => Some(Op::Dcmpg),
            0x99 => Some(Op::Ifeq),
            0x9a => Some(Op::Ifne),
            0x9b => Some(Op::Iflt),
            0x9c => Some(Op::Ifge),
            0x9d => Some(Op::Ifgt),
            0x9e => Some(Op::Ifle),
            0x9f => Some(Op::IfIcmpeq),
            0xa0 => Some(Op::IfIcmpne),
            0xa1 => Some(Op::IfIcmplt),
            0xa2 => Some(Op::IfIcmpge),
            0xa3 => Some(Op::IfIcmpgt),
            0xa4 => Some(Op::IfIcmple),
            0xa5 => Some(Op::IfAcmpeq),
            0xa6 => Some(Op::IfAcmpne),
            0xa7 => Some(Op::Goto),
            0xab => Some(Op::Lookupswitch),
            0xac => Some(Op::Ireturn),
            0xad => Some(Op::Lreturn),
            0xae => Some(Op::Freturn),
            0xaf => Some(Op::Dreturn),
            0xb0 => Some(Op::Areturn),
            0xb1 => Some(Op::Return),
            0xb2 => Some(Op::Getstatic),
            0xb3 => Some(Op::Putstatic),
            0xb4 => Some(Op::Getfield),
            0xb5 => Some(Op::Putfield),
            0xb6 => Some(Op::Invokevirtual),
            0xb7 => Some(Op::Invokespecial),
            0xb8 => Some(Op::Invokestatic),
            0xb9 => Some(Op::Invokeinterface),
            0xba => Some(Op::Invokedynamic),
            0xbb => Some(Op::New),
            0xbc => Some(Op::Newarray),
            0xbd => Some(Op::Anewarray),
            0xbe => Some(Op::Arraylength),
            0xbf => Some(Op::Athrow),
            0xc0 => Some(Op::Checkcast),
            0xc1 => Some(Op::Instanceof),
            0xc2 => Some(Op::Monitorenter),
            0xc3 => Some(Op::Monitorexit),
            0xc5 => Some(Op::Multianewarray),
            0xc6 => Some(Op::Ifnull),
            0xc7 => Some(Op::Ifnonnull),
            0xc8 => Some(Op::GotoW),
            0xca => Some(Op::Breakpoint),
            0xfe => Some(Op::Impdep1),
            0xff => Some(Op::Impdep2),
            _ => None,
        }
    }

    /// The byte value of the opcode.
    pub fn code(&self) -> (r: u8)
        ensures
            r == self.spec_code(),
            Self::spec_from_u8(r) == Some(*self),
    {
        match self {
            Op::Aaload => 0x32,
            Op::Aastore => 0x53,
            Op::AconstNull => 0x01,
            Op::Aload => 0x19,
            Op::Aload0 => 0x2a,
            Op::Aload1 => 0x2b,
            Op::Aload2 => 0x2c,
            Op::Aload3 => 0x2d,
            Op::Anewarray => 0xbd,
            Op::Areturn => 0xb0,
            Op::Arraylength => 0xbe,
            Op::Astore => 0x3a,
            Op::Astore0 => 0x4b,
            Op::Astore1 => 0x4c,
            Op::Astore2 => 0x4d,
            Op::Astore3 => 0x4e,
            Op::Athrow => 0xbf,
            Op::Baload => 0x33,
            Op::Bastore => 0x54,
            Op::Bipush => 0x10,
            Op::Breakpoint => 0xca,
            Op::Caload => 0x34,
            Op::Castore => 0x55,
            Op::Checkcast => 0xc0,
            Op::D2f => 0x90,
            Op::D2i => 0x8e,
            Op::D2l => 0x8f,
            Op::Dadd => 0x63,
            Op::Daload => 0x31,
            Op::Dastore => 0x52,
            Op::Dcmpg => 0x98,
            Op::Dcmpl => 0x97,
            Op::Dconst0 => 0x0e,
            Op::Dconst1 => 0x0f,
            Op::Ddiv => 0x6f,
            Op::Dload => 0x18,
            Op::Dload0 => 0x26,
            Op::Dload1 => 0x27,
            Op::Dload2 => 0x28,
            Op::Dload3 => 0x29,
            Op::Dmul => 0x6b,
            Op::Dneg => 0x77,
            Op::Drem => 0x73,
            Op::Dreturn => 0xaf,
            Op::Dstore => 0x39,
            Op::Dstore0 => 0x47,
            Op::Dstore1 => 0x48,
            Op::Dstore2 => 0x49,
            Op::Dstore3 => 0x4a,
            Op::Dsub => 0x67,
            Op::Dup => 0x59,
            Op::DupX1 => 0x5a,
            Op::DupX2 => 0x5b,
            Op::Dup2 => 0x5c,
            Op::Dup2X1 => 0x5d,
            Op::Dup2X2 => 0x5e,
            Op::F2d => 0x8d,
            Op::F2i => 0x8b,
            Op::F2l => 0x8c,
            Op::Fadd => 0x62,
            Op::Faload => 0x30,
            Op::Fastore => 0x51,
            Op::Fcmpg => 0x96,
            Op::Fcmpl => 0x95,
            Op::Fconst0 => 0x0b,
            Op::Fconst1 => 0x0c,
            Op::Fconst2 => 0x0d,
            Op::Fdiv => 0x6e,
            Op::Fload => 0x17,
            Op::Fload0 => 0x22,
            Op::Fload1 => 0x23,
            Op::Fload2 => 0x24,
            Op::Fload3 => 0x25,
            Op::Fmul => 0x6a,
            Op::Fneg => 0x76,
            Op::Frem => 0x72,
            Op::Freturn => 0xae,
            Op::Fstore => 0x38,
            Op::Fstore0 => 0x43,
            Op::Fstore1 => 0x44,
            Op::Fstore2 => 0x45,
            Op::Fstore3 => 0x46,
            Op::Fsub => 0x66,
            Op::Getfield => 0xb4,
            Op::Getstatic => 0xb2,
            Op::Goto => 0xa7,
            Op::GotoW => 0xc8,
            Op::I2b => 0x91,
            Op::I2c => 0x92,
            Op::I2d => 0x87,
            Op::I2f => 0x86,
            Op::I2l => 0x85,
            Op::I2s => 0x93,
            Op::Iadd => 0x60,
            Op::Iaload => 0x2e,
            Op::Iand => 0x7e,
            Op::Iastore => 0x4f,
            Op::IconstM1 => 0x02,
            Op::Iconst0 => 0x03,
            Op::Iconst1 => 0x04,
            Op::Iconst2 => 0x05,
            Op::Iconst3 => 0x06,
            Op::Iconst4 => 0x07,
            Op::Iconst5 => 0x08,
            Op::Idiv => 0x6c,
            Op::IfAcmpeq => 0xa5,
            Op::IfAcmpne => 0xa6,
            Op::IfIcmpeq => 0x9f,
            Op::IfIcmpge => 0xa2,
            Op::IfIcmpgt => 0xa3,
            Op::IfIcmple => 0xa4,
            Op::IfIcmplt => 0xa1,
            Op::IfIcmpne => 0xa0,
            Op::Ifeq => 0x99,
            Op::Ifge => 0x9c,
            Op::Ifgt => 0x9d,
            Op::Ifle => 0x9e,
            Op::Iflt => 0x9b,
            Op::Ifne => 0x9a,
            Op::Ifnonnull => 0xc7,
            Op::Ifnull => 0xc6,
            Op::Iinc => 0x84,
            Op::Iload => 0x15,
            Op::Iload0 => 0x1a,
            Op::Iload1 => 0x1b,
            Op::Iload2 => 0x1c,
            Op::Iload3 => 0x1d,
            Op::Impdep1 => 0xfe,
            Op::Impdep2 => 0xff,
            Op::Imul => 0x68,
            Op::Ineg => 0x74,
            Op::Instanceof => 0xc1,
            Op::Invokedynamic => 0xba,
            Op::Invokeinterface => 0xb9,
            Op::Invokespecial => 0xb7,
            Op::Invokestatic => 0xb8,
            Op::Invokevirtual => 0xb6,
            Op::Ior => 0x80,
            Op::Irem => 0x70,
            Op::Ireturn => 0xac,
            Op::Ishl => 0x78,
            Op::Ishr => 0x7a,
            Op::Istore => 0x36,
            Op::Istore0 => 0x3b,
            Op::Istore1 => 0x3c,
            Op::Istore2 => 0x3d,
            Op::Istore3 => 0x3e,
            Op::Isub => 0x64,
            Op::Iushr => 0x7c,
            Op::Ixor => 0x82,
            Op::L2d => 0x8a,
            Op::L2f => 0x89,
            Op::L2i => 0x88,
            Op::Ladd => 0x61,
            Op::Laload => 0x2f,
            Op::Land => 0x7f,
            Op::Lastore => 0x50,
            Op::Lcmp => 0x94,
            Op::Lconst0 => 0x09,
            Op::Lconst1 => 0x0a,
            Op::Ldc => 0x12,
            Op::LdcW => 0x13,
            Op::Ldc2W => 0x14,
            Op::Ldiv => 0x6d,
            Op::Lload => 0x16,
            Op::Lload0 => 0x1e,
            Op::Lload1 => 0x1f,
            Op::Lload2 => 0x20,
            Op::Lload3 => 0x21,
            Op::Lmul => 0x69,
            Op::Lneg => 0x75,
            Op::Lookupswitch => 0xab,
            Op::Lor => 0x81,
            Op::Lrem => 0x71,
            Op::Lreturn => 0xad,
            Op::Lshl => 0x79,
            Op::Lshr => 0x7b,
            Op::Lstore => 0x37,
            Op::Lstore0 => 0x3f,
            Op::Lstore1 => 0x40,
            Op::Lstore2 => 0x41,
            Op::Lstore3 => 0x42,
            Op::Lsub => 0x65,
            Op::Lushr => 0x7d,
            Op::Lxor => 0x83,
            Op::Monitorenter => 0xc2,
            Op::Monitorexit => 0xc3,
            Op::Multianewarray => 0xc5,
            Op::New => 0xbb,
            Op::Newarray => 0xbc,
            Op::Nop => 0x00,
            Op::Pop => 0x57,
            Op::Pop2 => 0x58,
            Op::Putfield => 0xb5,
            Op::Putstatic => 0xb3,
            Op::Return => 0xb1,
            Op::Saload => 0x35,
            Op::Sastore => 0x56,
            Op::Sipush => 0x11,
            Op::Swap => 0x5f,
        }
    }

    /// The mnemonic of the opcode.
    pub fn name(&self) -> (r: &'static str)
        ensures
            r@ == self.spec_name(),
    {
        match self {
            Op::Aaload => "aaload",
            Op::Aastore => "aastore",
            Op::AconstNull => "aconst_null",
            Op::Aload => "aload",
            Op::Aload0 => "aload_0",
            Op::Aload1 => "aload_1",
            Op::Aload2 => "aload_2",
            Op::Aload3 => "aload_3",
            Op::Anewarray => "anewarray",
            Op::Areturn => "areturn",
            Op::Arraylength => "arraylength",
            Op::Astore => "astore",
            Op::Astore0 => "astore_0",
            Op::Astore1 => "astore_1",
            Op::Astore2 => "astore_2",
            Op::Astore3 => "astore_3",
            Op::Athrow => "athrow",
            Op::Baload => "baload",
            Op::Bastore => "bastore",
            Op::Bipush => "bipush",
            Op::Breakpoint => "breakpoint",
            Op::Caload => "caload",
            Op::Castore => "castore",
            Op::Checkcast => "checkcast",
            Op::D2f => "d_2f",
            Op::D2i => "d_2i",
            Op::D2l => "d_2l",
            Op::Dadd => "dadd",
            Op::Daload => "daload",
            Op::Dastore => "dastore",
            Op::Dcmpg => "dcmpg",
            Op::Dcmpl => "dcmpl",
            Op::Dconst0 => "dconst_0",
            Op::Dconst1 => "dconst_1",
            Op::Ddiv => "ddiv",
            Op::Dload => "dload",
            Op::Dload0 => "dload_0",
            Op::Dload1 => "dload_1",
            Op::Dload2 => "dload_2",
            Op::Dload3 => "dload_3",
            Op::Dmul => "dmul",
            Op::Dneg => "dneg",
            Op::Drem => "drem",
            Op::Dreturn => "dreturn",
            Op::Dstore => "dstore",
            Op::Dstore0 => "dstore_0",
            Op::Dstore1 => "dstore_1",
            Op::Dstore2 => "dstore_2",
            Op::Dstore3 => "dstore_3",
            Op::Dsub => "dsub",
            Op::Dup => "dup",
            Op::DupX1 => "dupX1",
            Op::DupX2 => "dupX2",
            Op::Dup2 => "dup_2",
            Op::Dup2X1 => "dup2X1",
            Op::Dup2X2 => "dup2X2",
            Op::F2d => "f_2d",
            Op::F2i => "f_2i",
            Op::F2l => "f_2l",
            Op::Fadd => "fadd",
            Op::Faload => "faload",
            Op::Fastore => "fastore",
            Op::Fcmpg => "fcmpg",
            Op::Fcmpl => "fcmpl",
            Op::Fconst0 => "fconst_0",
            Op::Fconst1 => "fconst_1",
            Op::Fconst2 => "fconst_2",
            Op::Fdiv => "fdiv",
            Op::Fload => "fload",
            Op::Fload0 => "fload_0",
            Op::Fload1 => "fload_1",
            Op::Fload2 => "fload_2",
            Op::Fload3 => "fload_3",
            Op::Fmul => "fmul",
            Op::Fneg => "fneg",
            Op::Frem => "frem",
            Op::Freturn => "freturn",
            Op::Fstore => "fstore",
            Op::Fstore0 => "fstore_0",
            Op::Fstore1 => "fstore_1",
            Op::Fstore2 => "fstore_2",
            Op::Fstore3 => "fstore_3",
            Op::Fsub => "fsub",
            Op::Getfield => "getfield",
            Op::Getstatic => "getstatic",
            Op::Goto => "goto",
            Op::GotoW => "goto_w",
            Op::I2b => "i_2b",
            Op::I2c => "i_2c",
            Op::I2d => "i_2d",
            Op::I2f => "i_2f",
            Op::I2l => "i_2l",
            Op::I2s => "i_2s",
            Op::Iadd => "iadd",
            Op::Iaload => "iaload",
            Op::Iand => "iand",
            Op::Iastore => "iastore",
            Op::IconstM1 => "iconstM1",
            Op::Iconst0 => "iconst_0",
            Op::Iconst1 => "iconst_1",
            Op::Iconst2 => "iconst_2",
            Op::Iconst3 => "iconst_3",
            Op::Iconst4 => "iconst_4",
            Op::Iconst5 => "iconst_5",
            Op::Idiv => "idiv",
            Op::IfAcmpeq => "if_acmpeq",
            Op::IfAcmpne => "if_acmpne",
            Op::IfIcmpeq => "if_icmpeq",
            Op::IfIcmpge => "if_icmpge",
            Op::IfIcmpgt => "if_icmpgt",
            Op::IfIcmple => "if_icmple",
            Op::IfIcmplt => "if_icmplt",
            Op::IfIcmpne => "if_icmpne",
            Op::Ifeq => "ifeq",
            Op::Ifge => "ifge",
            Op::Ifgt => "ifgt",
            Op::Ifle => "ifle",
            Op::Iflt => "iflt",
            Op::Ifne => "ifne",
            Op::Ifnonnull => "ifnonnull",
            Op::Ifnull => "ifnull",
            Op::Iinc => "iinc",
            Op::Iload => "iload",
            Op::Iload0 => "iload_0",
            Op::Iload1 => "iload_1",
            Op::Iload2 => "iload_2",
            Op::Iload3 => "iload_3",
            Op::Impdep1 => "impdep_1",
            Op::Impdep2 => "impdep_2",
            Op::Imul => "imul",
            Op::Ineg => "ineg",
            Op::Instanceof => "instanceof",
            Op::Invokedynamic => "invokedynamic",
            Op::Invokeinterface => "invokeinterface",
            Op::Invokespecial => "invokespecial",
            Op::Invokestatic => "invokestatic",
            Op::Invokevirtual => "invokevirtual",
            Op::Ior => "ior",
            Op::Irem => "irem",
            Op::Ireturn => "ireturn",
            Op::Ishl => "ishl",
            Op::Ishr => "ishr",
            Op::Istore => "istore",
            Op::Istore0 => "istore_0",
            Op::Istore1 => "istore_1",
            Op::Istore2 => "istore_2",
            Op::Istore3 => "istore_3",
            Op::Isub => "isub",
            Op::Iushr => "iushr",
            Op::Ixor => "ixor",
            Op::L2d => "l_2d",
            Op::L2f => "l_2f",
            Op::L2i => "l_2i",
            Op::Ladd => "ladd",
            Op::Laload => "laload",
            Op::Land => "land",
            Op::Lastore => "lastore",
            Op::Lcmp => "lcmp",
            Op::Lconst0 => "lconst_0",
            Op::Lconst1 => "lconst_1",
            Op::Ldc => "ldc",
            Op::LdcW => "ldc_w",
            Op::Ldc2W => "ldc2W",
            Op::Ldiv => "ldiv",
            Op::Lload => "lload",
            Op::Lload0 => "lload_0",
            Op::Lload1 => "lload_1",
            Op::Lload2 => "lload_2",
            Op::Lload3 => "lload_3",
            Op::Lmul => "lmul",
            Op::Lneg => "lneg",
            Op::Lookupswitch => "lookupswitch",
            Op::Lor => "lor",
            Op::Lrem => "lrem",
            Op::Lreturn => "lreturn",
            Op::Lshl => "lshl",
            Op::Lshr => "lshr",
            Op::Lstore => "lstore",
            Op::Lstore0 => "lstore_0",
            Op::Lstore1 => "lstore_1",
            Op::Lstore2 => "lstore_2",
            Op::Lstore3 => "lstore_3",
            Op::Lsub => "lsub",
            Op::Lushr => "lushr",
            Op::Lxor => "lxor",
            Op::Monitorenter => "monitorenter",
            Op::Monitorexit => "monitorexit",
            Op::Multianewarray => "multianewarray",
            Op::New => "new",
            Op::Newarray => "newarray",
            Op::Nop => "nop",
            Op::Pop => "pop",
            Op::Pop2 => "pop_2",
            Op::Putfield => "putfield",
            Op::Putstatic => "putstatic",
            Op::Return => "return",
            Op::Saload => "saload",
            Op::Sastore => "sastore",
            Op::Sipush => "sipush",
            Op::Swap => "swap",
        }
    }

    /// The number of operand bytes that follow the opcode: 0 to 4.
    pub fn argc(&self) -> (r: usize)
        ensures
            r == self.spec_argc(),
            r <= 4,
    {
        match self {
            Op::Aload => 1,
            Op::Anewarray => 2,
            Op::Astore => 1,
            Op::Bipush => 1,
            Op::Checkcast => 2,
            Op::Dload => 1,
            Op::Dstore => 1,
            Op::Fload => 1,
            Op::Fstore => 1,
            Op::Getfield => 2,
            Op::Getstatic => 2,
            Op::Goto => 2,
            Op::GotoW => 4,
            Op::IfAcmpeq => 2,
            Op::IfAcmpne => 2,
            Op::IfIcmpeq => 2,
            Op::IfIcmpge => 2,
            Op::IfIcmpgt => 2,
            Op::IfIcmple => 2,
            Op::IfIcmplt => 2,
            Op::IfIcmpne => 2,
            Op::Ifeq => 2,
            Op::Ifge => 2,
            Op::Ifgt => 2,
            Op::Ifle => 2,
            Op::Iflt => 2,
            Op::Ifne => 2,
            Op::Ifnonnull => 2,
            Op::Ifnull => 2,
            Op::Iinc => 2,
            Op::Iload => 1,
            Op::Instanceof => 2,
            Op::Invokedynamic => 4,
            Op::Invokeinterface => 4,
            Op::Invokespecial => 2,
            Op::Invokestatic => 2,
            Op::Invokevirtual => 2,
            Op::Istore => 1,
            Op::Ldc => 1,
            Op::LdcW => 2,
            Op::Ldc2W => 2,
            Op::Lload => 1,
            Op::Lstore => 1,
            Op::Multianewarray => 3,
            Op::New => 2,
            Op::Newarray => 1,
            Op::Putfield => 2,
            Op::Putstatic => 2,
            Op::Sipush => 2,
            _ => 0,
        }
    }
}

/// An opcode is found again from its byte value.
pub proof fn lemma_code_round_trip(op: Op)
    ensures
        Op::spec_from_u8(op.spec_code()) == Some(op),
        op.spec_argc() <= 4,
{
}

} // verus!
