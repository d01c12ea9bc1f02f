//! The statements that are recognised in an instruction sequence, and the
//! patterns that recognise them.

use crate::instruction::Instruction;
use crate::ir::frame::RuntimeFrame;
use crate::op::Op;
use vstd::prelude::*;

verus! {

/// A fixed sequence of opcodes to look for.
pub struct OpSeq<const LENGTH: usize>(pub [Op; LENGTH]);

/// Whether the opcodes `ops` stand in `buffer` from index `offset` on.
pub open spec fn spec_matches(ops: Seq<Op>, buffer: Seq<Instruction>, offset: int) -> bool {
    &&& 0 <= offset
    &&& offset + ops.len() <= buffer.len()
    &&& forall|i: int| 0 <= i < ops.len() ==> (#[trigger] buffer[offset + i]).op == ops[i]
}

impl<const L: usize> OpSeq<L> {
    /// Whether the opcodes of the sequence stand in `buffer` from index
    /// `offset` on; an offset past the end matches nothing.
    pub fn test(&self, buffer: &[Instruction], offset: usize) -> (r: bool)
        ensures
            r == spec_matches(self.0@, buffer@, offset as int),
    {
        if offset > buffer.len() || L > buffer.len() - offset {
            return false;
        }
        let mut i: usize = 0;
        while i < L
            invariant
                i <= L,
                L == self.0@.len(),
                offset + L <= buffer.len(),
                forall|j: int| 0 <= j < i ==> (#[trigger] buffer@[offset + j]).op == self.0@[j],
            decreases L - i,
        {
            if buffer[offset + i].op != self.0[i] {
                return false;
            }
            i += 1;
        }
        true
    }
}

/// Alternatives of opcode sequences of one length.
pub struct SeqVariants<const COUNT: usize, const LENGTH: usize>(pub [OpSeq<LENGTH>; COUNT]);

/// One instruction kept as a comment.
#[derive(Debug, Clone, Copy, PartialEq, Eq)]
pub struct InstructionComment(pub Instruction);

/// A constructor that does nothing but call its superclass's.
#[derive(Debug, Clone, Copy, PartialEq, Eq, Structural)]
pub struct EmptyConstructor;

/// A plain `return`.
#[derive(Debug, Clone, Copy, PartialEq, Eq, Structural)]
pub struct ReturnStatement;

/// A call of the superclass's constructor without arguments.
#[derive(Debug, Clone, Copy, PartialEq, Eq, Structural)]
pub struct EmptySuperCall;

/// A statement recognised in an instruction sequence.
#[derive(Debug, Clone, Copy, PartialEq, Eq)]
pub enum Expression {
    EmptyConstructor(EmptyConstructor),
    ReturnStatement(ReturnStatement),
    Super(EmptySuperCall),
    Comment(InstructionComment),
}

/// A pattern that recognises a statement at an offset of an instruction
/// sequence and says how many instructions it covers.
pub trait CheckExpression {
    /// What the pattern recognises in `buffer` at `offset`.
    spec fn spec_test(buffer: Seq<Instruction>, offset: int) -> Option<(usize, Expression)>;

    /// Whether the pattern can be tried at `offset` of `buffer`.
    spec fn applicable(buffer: Seq<Instruction>, offset: int) -> bool;

    /// Tries the pattern at `offset` of `buffer`.
    fn test(buffer: &[Instruction], offset: usize, ctx: &RuntimeFrame) -> (r: Option<
        (usize, Expression),
    >)
        requires
            Self::applicable(buffer@, offset as int),
        ensures
            r == Self::spec_test(buffer@, offset as int),
    ;
}

/// The opcodes of a constructor that only calls its superclass's.
pub open spec fn empty_constructor_ops() -> Seq<Op> {
    seq![Op::Aload0, Op::Invokespecial, Op::Return]
}

/// The opcodes of a call of the superclass's constructor.
pub open spec fn super_call_ops() -> Seq<Op> {
    seq![Op::Aload0, Op::Invokespecial]
}

impl CheckExpression for InstructionComment {
    open spec fn spec_test(buffer: Seq<Instruction>, offset: int) -> Option<(usize, Expression)> {
        Some((1usize, Expression::Comment(InstructionComment(buffer[offset]))))
    }

    open spec fn applicable(buffer: Seq<Instruction>, offset: int) -> bool {
        0 <= offset < buffer.len()
    }

    /// Any instruction can be kept as a comment.
    fn test(buffer: &[Instruction], offset: usize, _ctx: &RuntimeFrame) -> (r: Option<
        (usize, Expression),
    >) {
        Some((1, Expression::Comment(InstructionComment(buffer[offset]))))
    }
}

impl CheckExpression for EmptyConstructor {
    open spec fn spec_test(buffer: Seq<Instruction>, offset: int) -> Option<(usize, Expression)> {
        if buffer.len() == 3 && spec_matches(empty_constructor_ops(), buffer, 0) {
            Some(((3 - offset) as usize, Expression::EmptyConstructor(EmptyConstructor)))
        } else {
            None
        }
    }

    open spec fn applicable(buffer: Seq<Instruction>, offset: int) -> bool {
        0 <= offset <= 3
    }

    /// A body of exactly three instructions: load `this`, call the
    /// superclass's constructor, return.
    fn test(buffer: &[Instruction], offset: usize, _ctx: &RuntimeFrame) -> (r: Option<
        (usize, Expression),
    >) {
        if buffer.len() != 3 {
            return None;
        }
        let result = OpSeq([Op::Aload0, Op::Invokespecial, Op::Return]).test(buffer, 0);
        if !result {
            return None;
        }
        Some((3 - offset, Expression::EmptyConstructor(EmptyConstructor)))
    }
}

impl CheckExpression for ReturnStatement {
    open spec fn spec_test(buffer: Seq<Instruction>, offset: int) -> Option<(usize, Expression)> {
        if spec_matches(seq![Op::Return], buffer, offset) {
            Some((1usize, Expression::ReturnStatement(ReturnStatement)))
        } else {
            None
        }
    }

    open spec fn applicable(buffer: Seq<Instruction>, offset: int) -> bool {
        true
    }

    /// A `return` instruction.
    fn test(buffer: &[Instruction], offset: usize, _ctx: &RuntimeFrame) -> (r: Option<
        (usize, Expression),
    >) {
        let result = OpSeq([Op::Return]).test(buffer, offset);
        if !result {
            return None;
        }
        Some((1, Expression::ReturnStatement(ReturnStatement)))
    }
}

impl CheckExpression for EmptySuperCall {
    open spec fn spec_test(buffer: Seq<Instruction>, offset: int) -> Option<(usize, Expression)> {
        if spec_matches(super_call_ops(), buffer, offset) {
            Some((2usize, Expression::Super(EmptySuperCall)))
        } else {
            None
        }
    }

    open spec fn applicable(buffer: Seq<Instruction>, offset: int) -> bool {
        true
    }

    /// Load `this`, then call the superclass's constructor.
    fn test(buffer: &[Instruction], offset: usize, _ctx: &RuntimeFrame) -> (r: Option<
        (usize, Expression),
    >) {
        let result = OpSeq([Op::Aload0, Op::Invokespecial]).test(buffer, offset);
        if !result {
            return None;
        }
        Some((2, Expression::Super(EmptySuperCall)))
    }
}

} // verus!
