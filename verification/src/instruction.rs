//! Instruction decoder: segments a bytecode buffer into instructions, each
//! an opcode with its fixed number of operand bytes. Operand bytes are not
//! interpreted.

use crate::cursor::{spec_read_bytes, spec_read_u8, ByteCursor, ReadError};
use crate::op::{lemma_code_round_trip, Op};
use vstd::prelude::*;

verus! {

/// Why a bytecode buffer cannot be decoded.
#[derive(Debug, Clone, Copy, PartialEq, Eq, Structural)]
pub enum InstructionError {
    /// The byte `opcode` at index `position` is no defined opcode.
    UnsupportedOpcode { position: usize, opcode: u8 },
    /// The instruction at index `position` needs operand bytes past the end
    /// of the buffer.
    IncompleteInstruction { position: usize, opcode: u8 },
    /// No opcode byte was left to read.
    IOError(ReadError),
}

/// One decoded instruction: the opcode and its operand bytes, the unused
/// ones being 0.
#[derive(Debug, Clone, Copy, PartialEq, Eq)]
pub struct Instruction {
    pub op: Op,
    pub args: [u8; 4],
}

/// The operand byte number `i` of an instruction with opcode `op` whose
/// operands start at `pos` in `code`: the byte in the buffer for the operands
/// the opcode has, 0 for the others.
pub open spec fn operand_at(op: Op, code: Seq<u8>, pos: int, i: int) -> u8 {
    if i < op.spec_argc() {
        code[pos + i]
    } else {
        0
    }
}

/// The instruction with opcode `op` whose operands start at `pos` in `code`.
pub open spec fn instruction_at(op: Op, code: Seq<u8>, pos: int) -> Instruction {
    Instruction {
        op,
        args: [
            operand_at(op, code, pos, 0),
            operand_at(op, code, pos, 1),
            operand_at(op, code, pos, 2),
            operand_at(op, code, pos, 3),
        ],
    }
}

/// The outcome of decoding `code` from index `pos` to its end, after the
/// instructions `done`.
///
/// At the end of the buffer the decoding is complete. Otherwise the byte at
/// `pos` must be a defined opcode and its operand bytes must lie inside the
/// buffer; the next instruction starts right after them.
pub open spec fn spec_decode_from(code: Seq<u8>, pos: int, done: Seq<Instruction>) -> Result<
    Seq<Instruction>,
    InstructionError,
>
    decreases code.len() - pos,
{
    if !(0 <= pos < code.len()) {
        Ok(done)
    } else {
        match Op::spec_from_u8(code[pos]) {
            None => Err(
                InstructionError::UnsupportedOpcode { position: pos as usize, opcode: code[pos] },
            ),
            Some(op) => if pos + 1 + op.spec_argc() > code.len() {
                Err(
                    InstructionError::IncompleteInstruction {
                        position: pos as usize,
                        opcode: code[pos],
                    },
                )
            } else {
                spec_decode_from(
                    code,
                    pos + 1 + op.spec_argc(),
                    done.push(instruction_at(op, code, pos + 1)),
                )
            },
        }
    }
}

/// The outcome of decoding the whole buffer `code`.
pub open spec fn spec_decode(code: Seq<u8>) -> Result<Seq<Instruction>, InstructionError> {
    spec_decode_from(code, 0, Seq::empty())
}

/// The bytes of one instruction: the opcode byte, then the operand bytes the
/// opcode has.
pub open spec fn encode_one(instruction: Instruction) -> Seq<u8> {
    seq![instruction.op.spec_code()] + instruction.args@.take(instruction.op.spec_argc() as int)
}

/// The bytes of the instructions of `instructions`, one after the other.
pub open spec fn encode(instructions: Seq<Instruction>) -> Seq<u8>
    decreases instructions.len(),
{
    if instructions.len() == 0 {
        Seq::empty()
    } else {
        encode_one(instructions[0]) + encode(instructions.drop_first())
    }
}

/// Whether the operand bytes that the opcode does not use are 0, as they are
/// in every decoded instruction.
pub open spec fn canonical(instruction: Instruction) -> bool {
    forall|i: int| instruction.op.spec_argc() <= i < 4 ==> instruction.args@[i] == 0
}

/// Outcome and next position of decoding one instruction at `pos` of a
/// cursor's buffer: the opcode byte, then its operand bytes. A missing
/// operand byte leaves the cursor at the end of the buffer.
pub open spec fn spec_read_instruction(s: Seq<u8>, pos: int) -> (
    Result<Instruction, InstructionError>,
    int,
) {
    match spec_read_u8(s, pos) {
        (Err(e), p) => (Err(InstructionError::IOError(e)), p),
        (Ok(b), p) => match Op::spec_from_u8(b) {
            None => (
                Err(InstructionError::UnsupportedOpcode { position: pos as usize, opcode: b }),
                p,
            ),
            Some(op) => match spec_read_bytes(s, p, op.spec_argc() as int) {
                (Err(_), q) => (
                    Err(
                        InstructionError::IncompleteInstruction {
                            position: pos as usize,
                            opcode: b,
                        },
                    ),
                    q,
                ),
                (Ok(_), q) => (Ok(instruction_at(op, s, p)), q),
            },
        },
    }
}

impl Instruction {
    /// Builds the instruction with opcode `op` from its operand bytes, which
    /// start at `pos` in `code`.
    fn with_operands(op: Op, code: &[u8], pos: usize) -> (r: Instruction)
        requires
            pos + op.spec_argc() <= code@.len(),
        ensures
            r == instruction_at(op, code@, pos as int),
    {
        let argc = op.argc();
        let a0 = if 0 < argc {
            code[pos]
        } else {
            0
        };
        let a1 = if 1 < argc {
            code[pos + 1]
        } else {
            0
        };
        let a2 = if 2 < argc {
            code[pos + 2]
        } else {
            0
        };
        let a3 = if 3 < argc {
            code[pos + 3]
        } else {
            0
        };
        Instruction { op, args: [a0, a1, a2, a3] }
    }

    /// Decodes one instruction from the cursor: the opcode byte, then its
    /// operand bytes. Fails on an undefined opcode and on a buffer that ends
    /// before the last operand byte.
    pub fn read_from(r: &mut ByteCursor) -> (out: Result<Instruction, InstructionError>)
        ensures
            final(r).bytes() == old(r).bytes(),
            (out, final(r).position()) == spec_read_instruction(old(r).bytes(), old(r).position()),
    {
        let position = r.offset();
        let opcode = match r.read_u8() {
            Ok(b) => b,
            Err(e) => return Err(InstructionError::IOError(e)),
        };
        let op = match Op::from_u8(opcode) {
            Some(op) => op,
            None => return Err(InstructionError::UnsupportedOpcode { position, opcode }),
        };
        match r.read_byte_vec(op.argc()) {
            Ok(operands) => Ok(Instruction::with_operands(op, operands.as_slice(), 0)),
            Err(_) => Err(InstructionError::IncompleteInstruction { position, opcode }),
        }
    }

    /// Decodes the whole buffer `code` into instructions. The buffer must end
    /// exactly after the last operand byte of the last instruction.
    pub fn decode_buffer(code: &[u8]) -> (out: Result<Vec<Instruction>, InstructionError>)
        ensures
            match out {
                Ok(instructions) => spec_decode(code@) == Ok::<Seq<Instruction>, InstructionError>(
                    instructions@,
                ),
                Err(e) => spec_decode(code@) == Err::<Seq<Instruction>, InstructionError>(e),
            },
    {
        let mut instructions: Vec<Instruction> = Vec::new();
        let mut pos: usize = 0;
        while pos < code.len()
            invariant
                spec_decode(code@) == spec_decode_from(code@, pos as int, instructions@),
            decreases code.len() - pos,
        {
            let opcode = code[pos];
            let op = match Op::from_u8(opcode) {
                Some(op) => op,
                None => return Err(InstructionError::UnsupportedOpcode { position: pos, opcode }),
            };
            let argc = op.argc();
            if argc > code.len() - pos - 1 {
                return Err(InstructionError::IncompleteInstruction { position: pos, opcode });
            }
            instructions.push(Instruction::with_operands(op, code, pos + 1));
            pos = pos + 1 + argc;
        }
        Ok(instructions)
    }

    /// Decodes the bytecode of a method into instructions. An undefined
    /// opcode is the unsupported-opcode failure, which names the byte, and an
    /// instruction whose operand bytes run past the end of the buffer is the
    /// incomplete-instruction failure; no instruction list is returned then.
    pub fn from_bytecode(code: &[u8]) -> (out: Result<Vec<Instruction>, InstructionError>)
        ensures
            match out {
                Ok(instructions) => spec_decode(code@) == Ok::<Seq<Instruction>, InstructionError>(
                    instructions@,
                ),
                Err(e) => spec_decode(code@) == Err::<Seq<Instruction>, InstructionError>(e),
            },
    {
        Instruction::decode_buffer(code)
    }
}

/// Every instruction of a decoding that succeeds has zeros in the operand
/// bytes its opcode does not use.
pub proof fn lemma_decoded_is_canonical(code: Seq<u8>, pos: int, done: Seq<Instruction>)
    requires
        forall|i: int| 0 <= i < done.len() ==> canonical(#[trigger] done[i]),
    ensures
        spec_decode_from(code, pos, done) matches Ok(all) ==> forall|i: int|
            0 <= i < all.len() ==> canonical(#[trigger] all[i]),
    decreases code.len() - pos,
{
    if 0 <= pos < code.len() {
        if let Some(op) = Op::spec_from_u8(code[pos]) {
            if pos + 1 + op.spec_argc() <= code.len() {
                let next = instruction_at(op, code, pos + 1);
                lemma_decoded_is_canonical(code, pos + 1 + op.spec_argc(), done.push(next));
            }
        }
    }
}

/// A buffer whose bytes from `pos` on are the encoding of `rest`, followed
/// by `tail`, decodes from `pos` as `rest` followed by the decoding of
/// `tail`.
proof fn lemma_decode_encoded_suffix(
    code: Seq<u8>,
    pos: int,
    done: Seq<Instruction>,
    rest: Seq<Instruction>,
)
    requires
        0 <= pos <= code.len(),
        pos + encode(rest).len() <= code.len(),
        code.subrange(pos, pos + encode(rest).len()) == encode(rest),
        forall|i: int| 0 <= i < rest.len() ==> canonical(#[trigger] rest[i]),
    ensures
        spec_decode_from(code, pos, done) == spec_decode_from(
            code,
            pos + encode(rest).len(),
            done + rest,
        ),
    decreases rest.len(),
{
    if rest.len() > 0 {
        let first = rest[0];
        let tail = rest.drop_first();
        let argc = first.op.spec_argc();
        lemma_code_round_trip(first.op);
        let whole = code.subrange(pos, pos + encode(rest).len());
        assert(code[pos] == whole[0]);
        let next = instruction_at(first.op, code, pos + 1);
        assert forall|i: int| 0 <= i < 4 implies next.args@[i] == first.args@[i] by {
            if i < argc {
                assert(code[pos + 1 + i] == whole[1 + i]);
            }
        }
        assert(next.args == first.args);
        let after = pos + 1 + argc;
        assert(code.subrange(after, after + encode(tail).len()) =~= encode(tail)) by {
            assert forall|i: int| 0 <= i < encode(tail).len() implies code[after + i] == encode(
                tail,
            )[i] by {
                assert(code[after + i] == whole[1 + argc + i]);
            }
        }
        assert forall|i: int| 0 <= i < tail.len() implies canonical(#[trigger] tail[i]) by {}
        lemma_decode_encoded_suffix(code, after, done.push(first), tail);
        assert(done.push(first) + tail =~= done + rest);
    }
}

/// Re-encoding followed by decoding gives the instructions back: the
/// encoding of any instructions whose unused operand bytes are 0 decodes to
/// exactly these instructions, the buffer being consumed to its end.
pub proof fn lemma_decode_encode(instructions: Seq<Instruction>)
    requires
        forall|i: int| 0 <= i < instructions.len() ==> canonical(#[trigger] instructions[i]),
    ensures
        spec_decode(encode(instructions)) == Ok::<Seq<Instruction>, InstructionError>(instructions),
{
    let code = encode(instructions);
    assert(code.subrange(0, code.len() as int) =~= code);
    lemma_decode_encoded_suffix(code, 0, Seq::empty(), instructions);
}

/// A buffer truncated inside the operand bytes of its last instruction fails
/// to decode with the incomplete-instruction condition, which reports where
/// that instruction starts: here the buffer is the encoding of
/// `instructions`, the opcode of `last` and only `kept` of its operand
/// bytes.
pub proof fn lemma_truncated_is_incomplete(
    instructions: Seq<Instruction>,
    last: Instruction,
    kept: int,
)
    requires
        forall|i: int| 0 <= i < instructions.len() ==> canonical(#[trigger] instructions[i]),
        0 <= kept < last.op.spec_argc(),
        encode(instructions).len() <= usize::MAX,
    ensures
        spec_decode(encode(instructions) + encode_one(last).take(1 + kept)) == Err::<
            Seq<Instruction>,
            InstructionError,
        >(
            InstructionError::IncompleteInstruction {
                position: encode(instructions).len() as usize,
                opcode: last.op.spec_code(),
            },
        ),
{
    let head = encode(instructions);
    let code = head + encode_one(last).take(1 + kept);
    assert(code.subrange(0, head.len() as int) =~= head);
    lemma_decode_encoded_suffix(code, 0, Seq::empty(), instructions);
    lemma_code_round_trip(last.op);
}

} // verus!
