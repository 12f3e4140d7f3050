//! Basic blocks and their labels.

use vstd::prelude::*;
use crate::call::{Branded, Pending};
use crate::native::Opcode;
use crate::scope::{Scope, ScopeId};

verus! {

/// A basic block of a function. Whoever holds the block may position a builder
/// on it; the block keeps a record of the instructions that builders were asked
/// to append to it, in order.
#[derive(Debug)]
pub struct BasicBlock<'fid, 'id> {
    pub(crate) label: Label<'fid, 'id>,
    pub(crate) instructions: Vec<Opcode>,
}

/// The name of a block as a branch target. It can be copied, and it stays
/// usable while a builder is positioned on the block.
#[derive(Clone, Copy, Debug)]
pub struct Label<'fid, 'id> {
    pub(crate) scope: Scope<'fid, 'id>,
    pub(crate) raw: usize,
}

impl<'fid, 'id> Branded for BasicBlock<'fid, 'id> {
    /// The scope of the function.
    type Brand = Scope<'fid, 'id>;
}

impl<'fid, 'id> BasicBlock<'fid, 'id> {
    /// The scope of the function that the block belongs to.
    pub open(crate) spec fn scope(&self) -> ScopeId {
        self.label.scope()
    }

    /// The handle of the block.
    pub open(crate) spec fn raw(&self) -> usize {
        self.label.raw()
    }

    /// The instructions that were appended to the block, oldest first.
    pub open(crate) spec fn record(&self) -> Seq<Opcode> {
        self.instructions@
    }

    /// The block as a branch target.
    pub fn label(&self) -> (label: Label<'fid, 'id>)
        ensures
            label.scope() == self.scope(),
            label.raw() == self.raw(),
    {
        self.label
    }

    /// The instructions that were appended to the block, oldest first.
    pub fn instructions(&self) -> (instructions: &Vec<Opcode>)
        ensures
            instructions@ == self.record(),
    {
        &self.instructions
    }

    /// Whether the last instruction of the block ends it. Builders append to
    /// a block that is ended like to any other, as the backend does; whoever
    /// wants well-formed blocks asks here first.
    pub fn is_terminated(&self) -> (terminated: bool)
        ensures
            terminated == (self.record().len() > 0 && self.record().last().terminates()),
    {
        let len: usize = self.instructions.len();
        len > 0 && self.instructions[len - 1].is_terminator()
    }

    /// Witnesses of the scope that the block belongs to.
    pub fn scope_of(&self) -> (scope: Scope<'fid, 'id>)
        ensures
            scope@ == self.scope(),
    {
        self.label.scope_of()
    }

    /// The handle of the block, as the backend gave it. It is never null.
    pub fn as_raw(&self) -> (raw: usize)
        ensures
            raw == self.raw(),
            raw != 0,
    {
        self.label.as_raw()
    }
}

impl<'n, 'fid, 'id> Pending<'n, BasicBlock<'fid, 'id>> {
    /// Takes the handle that the backend answered with. A null handle means
    /// that the backend made no block. A new block holds no instruction.
    pub fn complete(self, raw: usize) -> (block: Option<BasicBlock<'fid, 'id>>)
        ensures
            block is Some <==> raw != 0,
            block is Some ==> {
                &&& block.unwrap().scope() == self.brand()@
                &&& block.unwrap().raw() == raw
                &&& block.unwrap().record() == Seq::<Opcode>::empty()
            },
    {
        if raw == 0 {
            None
        } else {
            Some(BasicBlock { label: Label { scope: self.brand, raw }, instructions: Vec::new() })
        }
    }
}

impl<'fid, 'id> Label<'fid, 'id> {
    /// The scope of the function that the block belongs to.
    pub open(crate) spec fn scope(&self) -> ScopeId {
        self.scope@
    }

    /// The handle of the block.
    pub open(crate) spec fn raw(&self) -> usize {
        self.raw
    }

    #[verifier::type_invariant]
    spec fn has_handle(&self) -> bool {
        self.raw != 0
    }

    /// Witnesses of the scope that the block belongs to.
    pub fn scope_of(&self) -> (scope: Scope<'fid, 'id>)
        ensures
            scope@ == self.scope(),
    {
        self.scope
    }

    /// The handle of the block, as the backend gave it. It is never null.
    pub fn as_raw(&self) -> (raw: usize)
        ensures
            raw == self.raw(),
            raw != 0,
    {
        proof {
            use_type_invariant(self);
        }
        self.raw
    }
}

} // verus!
