//! The scope of what lives inside a function.

use vstd::prelude::*;
use crate::id::IdentityRef;

verus! {

/// The tokens of a function's scope: its context, its module, and the function.
pub struct ScopeId {
    pub context: u64,
    pub module: u64,
    pub function: u64,
}

/// Witnesses of the three identities that brand whatever lives inside a
/// function: blocks, labels and values. It borrows all three, so what carries
/// it cannot outlive the function, the module or the context.
#[derive(Clone, Copy, Debug)]
pub struct Scope<'fid, 'id> {
    pub(crate) context: IdentityRef<'fid, 'id>,
    pub(crate) module: IdentityRef<'fid, 'id>,
    pub(crate) function: IdentityRef<'fid, 'id>,
}

impl<'fid, 'id> Scope<'fid, 'id> {
    /// The three tokens.
    pub open(crate) spec fn view(&self) -> ScopeId {
        ScopeId {
            context: self.context.token(),
            module: self.module.token(),
            function: self.function.token(),
        }
    }

    /// Whether both scopes are the scope of one function.
    pub fn same(&self, other: &Scope<'_, 'id>) -> (same: bool)
        ensures
            same == (self@ == other@),
    {
        self.context.same(&other.context) && self.module.same(&other.module) && self.function.same(
            &other.function,
        )
    }

    /// The witness of the context.
    pub fn context(&self) -> (witness: IdentityRef<'fid, 'id>)
        ensures
            witness.token() == self@.context,
    {
        self.context
    }

    /// The witness of the module.
    pub fn module(&self) -> (witness: IdentityRef<'fid, 'id>)
        ensures
            witness.token() == self@.module,
    {
        self.module
    }

    /// The witness of the function.
    pub fn function(&self) -> (witness: IdentityRef<'fid, 'id>)
        ensures
            witness.token() == self@.function,
    {
        self.function
    }
}

} // verus!
