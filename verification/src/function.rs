//! Functions, which live in a module.

use vstd::prelude::*;
use crate::block::BasicBlock;
use crate::call::{no_null, one, two, Branded, Call, CallView, Pending};
use crate::context::Context;
use crate::id::{Identity, IdentityRef};
use crate::module::Module;
use crate::native::Native;
use crate::nulstr::NulStr;
use crate::scope::{Scope, ScopeId};
use crate::ty::Type;
use crate::value::Value;

verus! {

/// A function of the backend. It carries witnesses of its context and its
/// module, which borrow both, and owns an identity of its own: the brand of
/// its blocks and values.
#[derive(Debug)]
pub struct Function<'mid, 'id> {
    pub(crate) context: IdentityRef<'mid, 'id>,
    pub(crate) module: IdentityRef<'mid, 'id>,
    pub(crate) identity: Identity<'id>,
    pub(crate) raw: usize,
}

/// The name of a function as the target of a call. It can be copied, and it
/// belongs to the module of the function.
#[derive(Clone, Copy, Debug)]
pub struct FunctionLabel<'mid, 'id> {
    pub(crate) context: IdentityRef<'mid, 'id>,
    pub(crate) module: IdentityRef<'mid, 'id>,
    pub(crate) raw: usize,
}

impl<'mid, 'id> Branded for Function<'mid, 'id> {
    /// The witnesses of the context and of the module, and the function's own
    /// identity.
    type Brand = (IdentityRef<'mid, 'id>, IdentityRef<'mid, 'id>, Identity<'id>);
}

/// The scope that a function with the brand `brand` gives to what lives in it.
pub open spec fn scope_from(
    brand: (IdentityRef<'_, '_>, IdentityRef<'_, '_>, Identity<'_>),
) -> ScopeId {
    ScopeId { context: brand.0.token(), module: brand.1.token(), function: brand.2.token() }
}

impl<'mid, 'id> Function<'mid, 'id> {
    /// The scope of what lives inside the function.
    pub open(crate) spec fn scope(&self) -> ScopeId {
        ScopeId {
            context: self.context.token(),
            module: self.module.token(),
            function: self.identity.token(),
        }
    }

    /// The handle of the function.
    pub open(crate) spec fn raw(&self) -> usize {
        self.raw
    }

    #[verifier::type_invariant]
    spec fn has_handle(&self) -> bool {
        self.raw != 0
    }

    /// Asks for a function named `name`, of type `ty`, in `module`. The type
    /// must belong to the module's context. The function will carry the
    /// identities of the module and `identity`.
    pub fn new<'n>(
        module: &'mid Module<'_, 'id>,
        identity: Identity<'id>,
        name: NulStr<'n>,
        ty: Type<'_, 'id>,
    ) -> (pending: Pending<'n, Function<'mid, 'id>>)
        requires
            ty.context() == module.context(),
        ensures
            pending.request() == (CallView {
                function: Native::AddFunction,
                handles: seq![module.raw(), ty.raw()],
                texts: seq![name.bytes()],
            }),
            no_null(pending.request().handles),
            scope_from(pending.brand()) == (ScopeId {
                context: module.context(),
                module: module.id(),
                function: identity.token(),
            }),
    {
        Pending {
            call: Call::with_text(
                Native::AddFunction,
                two(module.as_raw(), ty.as_raw()),
                name.as_bytes_with_nul(),
            ),
            brand: (module.context_id(), module.identity(), identity),
        }
    }

    /// Asks for the parameter at `index`. It will be a value of this function.
    pub fn param(&self, index: u32) -> (pending: Pending<'static, Value<'_, 'id>>)
        ensures
            pending.request() == (CallView {
                function: Native::GetParam(index),
                handles: seq![self.raw()],
                texts: Seq::empty(),
            }),
            no_null(pending.request().handles),
            pending.brand()@ == self.scope(),
    {
        Pending {
            call: Call::plain(Native::GetParam(index), one(self.as_raw())),
            brand: self.scope_of(),
        }
    }

    /// Asks for a new block named `name` at the end of the function. `context`
    /// must be the context of the function. The block will carry the scope of
    /// the function, and starts empty.
    pub fn append_basic_block<'n>(
        &self,
        context: &Context<'id>,
        name: NulStr<'n>,
    ) -> (pending: Pending<'n, BasicBlock<'_, 'id>>)
        requires
            context.id() == self.scope().context,
        ensures
            pending.request() == (CallView {
                function: Native::AppendBasicBlockInContext,
                handles: seq![context.raw(), self.raw()],
                texts: seq![name.bytes()],
            }),
            no_null(pending.request().handles),
            pending.brand()@ == self.scope(),
    {
        Pending {
            call: Call::with_text(
                Native::AppendBasicBlockInContext,
                two(context.as_raw(), self.as_raw()),
                name.as_bytes_with_nul(),
            ),
            brand: self.scope_of(),
        }
    }

    /// The function as the target of a call.
    pub fn label(&self) -> (label: FunctionLabel<'mid, 'id>)
        ensures
            label.context() == self.scope().context,
            label.module() == self.scope().module,
            label.raw() == self.raw(),
    {
        proof {
            use_type_invariant(self);
        }
        FunctionLabel { context: self.context, module: self.module, raw: self.raw }
    }

    /// Witnesses of the scope of what lives inside the function.
    pub fn scope_of(&self) -> (scope: Scope<'_, 'id>)
        ensures
            scope@ == self.scope(),
    {
        Scope { context: self.context, module: self.module, function: self.identity.borrow() }
    }

    /// The handle of the function, as the backend gave it. It is never null.
    pub fn as_raw(&self) -> (raw: usize)
        ensures
            raw == self.raw(),
            raw != 0,
    {
        proof {
            use_type_invariant(self);
        }
        self.raw
    }
}

impl<'n, 'mid, 'id> Pending<'n, Function<'mid, 'id>> {
    /// Takes the handle that the backend answered with. A null handle means
    /// that the backend made no function.
    pub fn complete(self, raw: usize) -> (function: Option<Function<'mid, 'id>>)
        ensures
            function is Some <==> raw != 0,
            function is Some ==> function.unwrap().scope() == scope_from(self.brand())
                && function.unwrap().raw() == raw,
    {
        if raw == 0 {
            None
        } else {
            let (context, module, identity) = self.brand;
            Some(Function { context, module, identity, raw })
        }
    }
}

impl<'mid, 'id> FunctionLabel<'mid, 'id> {
    /// The token of the context that the function lives in.
    pub open(crate) spec fn context(&self) -> u64 {
        self.context.token()
    }

    /// The token of the module that the function lives in.
    pub open(crate) spec fn module(&self) -> u64 {
        self.module.token()
    }

    /// The handle of the function.
    pub open(crate) spec fn raw(&self) -> usize {
        self.raw
    }

    #[verifier::type_invariant]
    spec fn has_handle(&self) -> bool {
        self.raw != 0
    }

    /// A witness of the context that the function lives in.
    pub fn context_id(&self) -> (witness: IdentityRef<'mid, 'id>)
        ensures
            witness.token() == self.context(),
    {
        self.context
    }

    /// A witness of the module that the function lives in.
    pub fn module_id(&self) -> (witness: IdentityRef<'mid, 'id>)
        ensures
            witness.token() == self.module(),
    {
        self.module
    }

    /// The handle of the function, as the backend gave it. It is never null.
    pub fn as_raw(&self) -> (raw: usize)
        ensures
            raw == self.raw(),
            raw != 0,
    {
        proof {
            use_type_invariant(self);
        }
        self.raw
    }
}

} // verus!
