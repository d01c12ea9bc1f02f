//! The frame in which the instructions of a code body are read.

use crate::attribute::{AttributeTable, CodeData, ExceptionTableEntry};
use crate::constant::ConstantPool;
use vstd::prelude::*;

verus! {

/// What instructions are read against: the constant pool of their class.
pub struct RuntimeBase {
    pub constant_pool: ConstantPool,
}

/// A value on the operand stack. No kind of value is told apart yet.
#[derive(Debug, Clone, Copy, PartialEq, Eq, Structural)]
pub enum StackValue {
    /// A value of which nothing is known.
    Unknown,
}

/// The frame of one code body: its constant pool, its exception handlers
/// and attributes, and the operand stack with its declared limit.
pub struct RuntimeFrame<'cp, 'code> {
    pub constant_pool: &'cp ConstantPool,
    pub exception_table: &'code Vec<ExceptionTableEntry>,
    pub attributes: &'code AttributeTable,
    pub stack_size: usize,
    pub stack: Vec<StackValue>,
    pub max_locals: usize,
}

impl<'cp, 'code> RuntimeFrame<'cp, 'code> {
    /// The frame of the code body `code` with an empty stack.
    pub fn new(base: &'cp ConstantPool, code: &'code CodeData) -> (r: Self)
        ensures
            r.constant_pool == base,
            r.exception_table == &code.exception_table,
            r.attributes == &code.attributes,
            r.stack_size == code.max_stack,
            r.stack@ == Seq::<StackValue>::empty(),
            r.max_locals == code.max_locals,
    {
        RuntimeFrame {
            constant_pool: base,
            exception_table: &code.exception_table,
            attributes: &code.attributes,
            stack_size: code.max_stack,
            stack: Vec::new(),
            max_locals: code.max_locals,
        }
    }

    /// A frame like this one, with a stack of its own that holds the same
    /// values.
    pub fn new_inner(&self) -> (r: Self)
        ensures
            r.constant_pool == self.constant_pool,
            r.exception_table == self.exception_table,
            r.attributes == self.attributes,
            r.stack_size == self.stack_size,
            r.stack@ == self.stack@,
            r.max_locals == self.max_locals,
    {
        let mut stack: Vec<StackValue> = Vec::new();
        let mut i: usize = 0;
        while i < self.stack.len()
            invariant
                i <= self.stack.len(),
                stack@ == self.stack@.take(i as int),
            decreases self.stack.len() - i,
        {
            stack.push(self.stack[i]);
            i += 1;
        }
        RuntimeFrame {
            constant_pool: self.constant_pool,
            exception_table: self.exception_table,
            attributes: self.attributes,
            stack_size: self.stack_size,
            stack,
            max_locals: self.max_locals,
        }
    }

    /// Pushes `value` on the stack, also past the declared limit.
    pub fn push_to_stack(&mut self, value: StackValue)
        ensures
            final(self).stack@ == old(self).stack@.push(value),
            final(self).constant_pool == old(self).constant_pool,
            final(self).exception_table == old(self).exception_table,
            final(self).attributes == old(self).attributes,
            final(self).stack_size == old(self).stack_size,
            final(self).max_locals == old(self).max_locals,
    {
        self.stack.push(value);
    }
}

} // verus!
