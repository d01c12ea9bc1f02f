//! Reconstruction of statements from instruction sequences.

use crate::attribute::CodeData;
use crate::constant::ConstantPool;
use crate::instruction::{spec_decode, Instruction, InstructionError};
use crate::ir::expression::{
    CheckExpression, EmptyConstructor, EmptySuperCall, Expression, InstructionComment,
};
use crate::ir::frame::RuntimeFrame;
use crate::member::Member;
use vstd::prelude::*;

pub mod expression;
pub mod frame;

verus! {

/// The statements of `instructions` from `offset` on, after the statements
/// `done`: a call of the superclass's constructor where one stands, and
/// every other instruction as a comment.
pub open spec fn spec_statements_from(
    instructions: Seq<Instruction>,
    offset: int,
    done: Seq<Expression>,
) -> Seq<Expression>
    decreases instructions.len() - offset,
{
    if offset < 0 || offset >= instructions.len() {
        done
    } else {
        match EmptySuperCall::spec_test(instructions, offset) {
            Some(found) => spec_statements_from(instructions, offset + 2, done.push(found.1)),
            None => spec_statements_from(
                instructions,
                offset + 1,
                done.push(Expression::Comment(InstructionComment(instructions[offset]))),
            ),
        }
    }
}

/// The statements of a method body: the empty constructor alone where the
/// body of a constructor is one, the statements from the start otherwise.
pub open spec fn spec_decompile(instructions: Seq<Instruction>, constructor: bool) -> Seq<
    Expression,
> {
    if constructor && EmptyConstructor::spec_test(instructions, 0) is Some {
        seq![EmptyConstructor::spec_test(instructions, 0)->Some_0.1]
    } else {
        spec_statements_from(instructions, 0, Seq::empty())
    }
}

/// Decodes the instructions of the code body `code` of `method` and
/// recognises its statements. Fails where the instruction bytes do not
/// decode.
pub fn decompile(constant_pool: &ConstantPool, method: &Member, code: &CodeData) -> (r: Result<
    Vec<Expression>,
    InstructionError,
>)
    ensures
        match r {
            Ok(statements) => spec_decode(code.code@) matches Ok(instructions) && statements@
                == spec_decompile(instructions, method@.name == "<init>"@),
            Err(e) => spec_decode(code.code@) == Err::<Seq<Instruction>, InstructionError>(e),
        },
{
    let instructions = match Instruction::decode_buffer(code.code.as_slice()) {
        Ok(instructions) => instructions,
        Err(e) => return Err(e),
    };
    let frame = RuntimeFrame::new(constant_pool, code);
    let mut result: Vec<Expression> = Vec::new();
    if method.is_constructor() {
        if let Some((_, expr)) = EmptyConstructor::test(instructions.as_slice(), 0, &frame) {
            result.push(expr);
            return Ok(result);
        }
    }
    let mut offset: usize = 0;
    while offset < instructions.len()
        invariant
            spec_statements_from(instructions@, 0, Seq::empty()) == spec_statements_from(
                instructions@,
                offset as int,
                result@,
            ),
        decreases instructions.len() - offset,
    {
        let found = match EmptySuperCall::test(instructions.as_slice(), offset, &frame) {
            Some(found) => found,
            None => match InstructionComment::test(instructions.as_slice(), offset, &frame) {
                Some(found) => found,
                None => vstd::pervasive::unreached(),
            },
        };
        offset += found.0;
        result.push(found.1);
    }
    Ok(result)
}

} // verus!
