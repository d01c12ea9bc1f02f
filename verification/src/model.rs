//! A model of source-level statements, for the reconstruction of control
//! flow.

use vstd::prelude::*;

verus! {

/// The kinds of type a declaration can have.
#[derive(Debug, Clone, Copy, PartialEq, Eq, Structural)]
pub enum Type {
    Primitive,
    Class,
    Generic,
}

/// A statement that steers the control flow.
#[derive(Debug)]
pub enum ControlFlow {
    If {
        condition: Expression,
        content: ExpressionBlock,
        else_ifs: Vec<ControlFlow>,
        else_block: Option<ExpressionBlock>,
    },
    While { condition: Expression, content: ExpressionBlock },
    DoWhile { condition: Expression, content: ExpressionBlock },
    For {
        setup: Expression,
        condition: Expression,
        content: ExpressionBlock,
        increment: Expression,
    },
    Try {
        setup: Option<Expression>,
        content: ExpressionBlock,
        /// The handlers, each for one kind of type, in order.
        catch: Vec<(Type, ExpressionBlock)>,
        finally: Option<ExpressionBlock>,
    },
}

/// The declaration of a name with its type and its first value.
#[derive(Debug)]
pub struct Declaration {
    pub of: String,
    pub t: Type,
    pub value: Expression,
}

/// An expression of the source language.
#[derive(Debug)]
pub enum Expression {
    Assignment,
    Literal { value: u32 },
    FlowControl(Box<ControlFlow>),
}

/// A block of expressions.
#[derive(Debug)]
pub struct ExpressionBlock {}

} // verus!
