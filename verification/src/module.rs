//! Modules, which live in a context.

use vstd::prelude::*;
use crate::call::{no_null, one, Branded, Call, CallView, Pending};
use crate::context::Context;
use crate::id::{Identity, IdentityRef};
use crate::native::Native;
use crate::nulstr::NulStr;
use crate::owned::{DropInPlace, Owned};

verus! {

/// A module of the backend. It carries a witness of its context's identity,
/// which borrows the context, and owns an identity of its own.
#[derive(Debug)]
pub struct Module<'cid, 'id> {
    pub(crate) context: IdentityRef<'cid, 'id>,
    pub(crate) identity: Identity<'id>,
    pub(crate) raw: usize,
}

impl<'cid, 'id> Branded for Module<'cid, 'id> {
    /// The witness of the context, and the module's own identity.
    type Brand = (IdentityRef<'cid, 'id>, Identity<'id>);
}

impl<'cid, 'id> Module<'cid, 'id> {
    /// The token of the context that the module lives in.
    pub open(crate) spec fn context(&self) -> u64 {
        self.context.token()
    }

    /// The token of the module's own identity.
    pub open(crate) spec fn id(&self) -> u64 {
        self.identity.token()
    }

    /// The handle of the module.
    pub open(crate) spec fn raw(&self) -> usize {
        self.raw
    }

    #[verifier::type_invariant]
    spec fn has_handle(&self) -> bool {
        self.raw != 0
    }

    /// Asks for a module named `name` in `context`. The module will carry the
    /// context's identity and `identity`.
    pub fn new<'n>(
        context: &'cid Context<'id>,
        identity: Identity<'id>,
        name: NulStr<'n>,
    ) -> (pending: Pending<'n, Module<'cid, 'id>>)
        ensures
            pending.request() == (CallView {
                function: Native::ModuleCreateWithNameInContext,
                handles: seq![context.raw()],
                texts: seq![name.bytes()],
            }),
            no_null(pending.request().handles),
            pending.brand().0.token() == context.id(),
            pending.brand().1 == identity,
    {
        Pending {
            call: Call::with_text(
                Native::ModuleCreateWithNameInContext,
                one(context.as_raw()),
                name.as_bytes_with_nul(),
            ),
            brand: (context.identity(), identity),
        }
    }

    /// A witness of the context that the module lives in.
    pub fn context_id(&self) -> (witness: IdentityRef<'cid, 'id>)
        ensures
            witness.token() == self.context(),
    {
        self.context
    }

    /// A witness of the module's own identity.
    pub fn identity(&self) -> (witness: IdentityRef<'_, 'id>)
        ensures
            witness.token() == self.id(),
    {
        self.identity.borrow()
    }

    /// The handle of the module, as the backend gave it. It is never null.
    pub fn as_raw(&self) -> (raw: usize)
        ensures
            raw == self.raw(),
            raw != 0,
    {
        proof {
            use_type_invariant(self);
        }
        self.raw
    }
}

impl<'n, 'cid, 'id> Pending<'n, Module<'cid, 'id>> {
    /// Takes the handle that the backend answered with. A null handle means
    /// that the backend made no module.
    pub fn complete(self, raw: usize) -> (module: Option<Owned<Module<'cid, 'id>>>)
        ensures
            module is Some <==> raw != 0,
            module is Some ==> {
                &&& module.unwrap()@.context() == self.brand().0.token()
                &&& module.unwrap()@.id() == self.brand().1.token()
                &&& module.unwrap()@.raw() == raw
            },
    {
        if raw == 0 {
            None
        } else {
            let (context, identity) = self.brand;
            Some(Owned::from_raw(Module { context, identity, raw }))
        }
    }
}

impl<'cid, 'id> DropInPlace for Module<'cid, 'id> {
    open(crate) spec fn held(&self) -> usize {
        self.raw
    }

    open spec fn releaser(&self) -> Native {
        Native::DisposeModule
    }

    fn drop_in_place(self) -> (call: Call<'static>)
        ensures
            no_null(call@.handles),
    {
        Call::plain(Native::DisposeModule, one(self.as_raw()))
    }
}

} // verus!
