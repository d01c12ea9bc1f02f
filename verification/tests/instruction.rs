use jaded::cursor::{ByteCursor, ReadError};
use jaded::instruction::{Instruction, InstructionError};
use jaded::op::Op;

#[test]
fn buffer_is_segmented_by_operand_count() {
    let code = [0x2a, 0xb7, 0x00, 0x01, 0xb1];
    assert_eq!(
        Instruction::decode_buffer(&code),
        Ok(vec![
            Instruction { op: Op::Aload0, args: [0, 0, 0, 0] },
            Instruction { op: Op::Invokespecial, args: [0, 1, 0, 0] },
            Instruction { op: Op::Return, args: [0, 0, 0, 0] },
        ])
    );
    assert_eq!(Instruction::from_bytecode(&code).map(|v| v.len()), Ok(3));
}

#[test]
fn operands_of_every_width() {
    let code = [
        0x00, // nop
        0x10, 0x7F, // bipush
        0x11, 0x01, 0x02, // sipush
        0xc5, 0x00, 0x05, 0x02, // multianewarray
        0xc8, 0x01, 0x02, 0x03, 0x04, // goto_w
    ];
    assert_eq!(
        Instruction::decode_buffer(&code),
        Ok(vec![
            Instruction { op: Op::Nop, args: [0, 0, 0, 0] },
            Instruction { op: Op::Bipush, args: [0x7F, 0, 0, 0] },
            Instruction { op: Op::Sipush, args: [1, 2, 0, 0] },
            Instruction { op: Op::Multianewarray, args: [0, 5, 2, 0] },
            Instruction { op: Op::GotoW, args: [1, 2, 3, 4] },
        ])
    );
}

#[test]
fn empty_buffer_has_no_instructions() {
    assert_eq!(Instruction::decode_buffer(&[]), Ok(vec![]));
    assert_eq!(Instruction::from_bytecode(&[]), Ok(vec![]));
}

#[test]
fn undefined_opcode_is_unsupported() {
    assert_eq!(
        Instruction::decode_buffer(&[0xCB]),
        Err(InstructionError::UnsupportedOpcode { position: 0, opcode: 0xCB })
    );
    assert_eq!(
        Instruction::decode_buffer(&[0x00, 0x10, 0x01, 0xCB, 0x00]),
        Err(InstructionError::UnsupportedOpcode { position: 3, opcode: 0xCB })
    );
    assert_eq!(Op::from_u8(0xCB), None);
    for undefined in [0xa8u8, 0xa9, 0xaa, 0xc4, 0xc9, 0xcb, 0xfd] {
        assert_eq!(Op::from_u8(undefined), None);
    }
}

#[test]
fn bytecode_failures_are_reported() {
    assert_eq!(
        Instruction::from_bytecode(&[0xb7, 0x00]),
        Err(InstructionError::IncompleteInstruction { position: 0, opcode: 0xb7 })
    );
    assert_eq!(
        Instruction::from_bytecode(&[0xCB]),
        Err(InstructionError::UnsupportedOpcode { position: 0, opcode: 0xCB })
    );
}

#[test]
fn truncated_operand_is_incomplete() {
    assert_eq!(
        Instruction::decode_buffer(&[0xb7, 0x00]),
        Err(InstructionError::IncompleteInstruction { position: 0, opcode: 0xb7 })
    );
    assert_eq!(
        Instruction::decode_buffer(&[0x2a, 0xc8, 0x01, 0x02, 0x03]),
        Err(InstructionError::IncompleteInstruction { position: 1, opcode: 0xc8 })
    );
    assert_eq!(
        Instruction::decode_buffer(&[0x10]),
        Err(InstructionError::IncompleteInstruction { position: 0, opcode: 0x10 })
    );
}

#[test]
fn re_encoded_instructions_decode_to_themselves() {
    let instructions = vec![
        Instruction { op: Op::Ldc, args: [9, 0, 0, 0] },
        Instruction { op: Op::Invokedynamic, args: [0, 7, 0, 0] },
        Instruction { op: Op::Iinc, args: [1, 0xFF, 0, 0] },
        Instruction { op: Op::Areturn, args: [0, 0, 0, 0] },
    ];
    let mut code = Vec::new();
    for instruction in &instructions {
        code.push(instruction.op.code());
        code.extend_from_slice(&instruction.args[..instruction.op.argc()]);
    }
    assert_eq!(code.len(), 2 + 5 + 3 + 1);
    assert_eq!(Instruction::decode_buffer(&code), Ok(instructions.clone()));
    for cut in [1usize, 3, 4, 5, 6, 8, 9] {
        let result = Instruction::decode_buffer(&code[..cut]);
        assert!(
            matches!(result, Err(InstructionError::IncompleteInstruction { .. })),
            "cut at {}: {:?}",
            cut,
            result
        );
    }
}

#[test]
fn every_defined_opcode_round_trips() {
    let mut defined = 0;
    for code in 0..=255u8 {
        if let Some(op) = Op::from_u8(code) {
            defined += 1;
            assert_eq!(op.code(), code);
            assert!(op.argc() <= 4);
            assert!(!op.name().is_empty());
        }
    }
    assert_eq!(defined, 200);
}

#[test]
fn names_and_operand_counts() {
    assert_eq!(Op::Aload0.name(), "aload_0");
    assert_eq!(Op::Aload0.code(), 0x2a);
    assert_eq!(Op::Aload0.argc(), 0);
    assert_eq!(Op::Invokespecial.name(), "invokespecial");
    assert_eq!(Op::Invokespecial.argc(), 2);
    assert_eq!(Op::Invokeinterface.argc(), 4);
    assert_eq!(Op::Multianewarray.argc(), 3);
    assert_eq!(Op::Bipush.argc(), 1);
    assert_eq!(Op::IconstM1.name(), "iconstM1");
    assert_eq!(Op::D2f.name(), "d_2f");
    assert_eq!(Op::Dup2X1.name(), "dup2X1");
    assert_eq!(Op::Ldc2W.name(), "ldc2W");
    assert_eq!(Op::IfIcmpeq.code(), 0x9f);
    assert_eq!(Op::Lookupswitch.argc(), 0);
    assert_eq!(Op::Impdep2.code(), 0xff);
}

#[test]
fn one_instruction_from_a_cursor() {
    let bytes = [0x11, 0x01, 0x02, 0xb1];
    let mut cursor = ByteCursor::new(&bytes);
    assert_eq!(
        Instruction::read_from(&mut cursor),
        Ok(Instruction { op: Op::Sipush, args: [1, 2, 0, 0] })
    );
    assert_eq!(cursor.offset(), 3);
    assert_eq!(
        Instruction::read_from(&mut cursor),
        Ok(Instruction { op: Op::Return, args: [0, 0, 0, 0] })
    );
    assert_eq!(
        Instruction::read_from(&mut cursor),
        Err(InstructionError::IOError(ReadError::UnexpectedEof))
    );

    let mut cursor = ByteCursor::new(&[0x00, 0xCB]);
    assert!(Instruction::read_from(&mut cursor).is_ok());
    assert_eq!(
        Instruction::read_from(&mut cursor),
        Err(InstructionError::UnsupportedOpcode { position: 1, opcode: 0xCB })
    );

    let mut cursor = ByteCursor::new(&[0xb7, 0x00]);
    assert_eq!(
        Instruction::read_from(&mut cursor),
        Err(InstructionError::IncompleteInstruction { position: 0, opcode: 0xb7 })
    );
    assert_eq!(cursor.offset(), 2);
}
