//! The root scope.

use vstd::prelude::*;
use crate::call::{no_null, one, Branded, Call, CallView, Pending};
use crate::id::{Identity, IdentityRef};
use crate::native::Native;
use crate::owned::{DropInPlace, Owned};

verus! {

/// A context of the backend: the scope that every module, type and builder is
/// created in. It owns its identity, so whatever carries a witness of that
/// identity borrows the context and cannot outlive it.
#[derive(Debug)]
pub struct Context<'id> {
    pub(crate) identity: Identity<'id>,
    pub(crate) raw: usize,
}

impl<'id> Branded for Context<'id> {
    type Brand = Identity<'id>;
}

impl<'id> Context<'id> {
    /// The token of the context's identity.
    pub open(crate) spec fn id(&self) -> u64 {
        self.identity.token()
    }

    /// The handle of the context.
    pub open(crate) spec fn raw(&self) -> usize {
        self.raw
    }

    #[verifier::type_invariant]
    spec fn has_handle(&self) -> bool {
        self.raw != 0
    }

    /// Asks the backend for a context, which will carry `identity`.
    pub fn new(identity: Identity<'id>) -> (pending: Pending<'static, Context<'id>>)
        ensures
            pending.request() == (CallView {
                function: Native::ContextCreate,
                handles: Seq::empty(),
                texts: Seq::empty(),
            }),
            pending.brand() == identity,
    {
        Pending { call: Call::plain(Native::ContextCreate, Vec::new()), brand: identity }
    }

    /// A witness of the context's identity.
    pub fn identity(&self) -> (witness: IdentityRef<'_, 'id>)
        ensures
            witness.token() == self.id(),
    {
        self.identity.borrow()
    }

    /// The handle of the context, as the backend gave it. It is never null.
    pub fn as_raw(&self) -> (raw: usize)
        ensures
            raw == self.raw(),
            raw != 0,
    {
        proof {
            use_type_invariant(self);
        }
        self.raw
    }
}

impl<'n, 'id> Pending<'n, Context<'id>> {
    /// Takes the handle that the backend answered with. A null handle means
    /// that the backend made no context.
    pub fn complete(self, raw: usize) -> (context: Option<Owned<Context<'id>>>)
        ensures
            context is Some <==> raw != 0,
            context is Some ==> context.unwrap()@.id() == self.brand().token()
                && context.unwrap()@.raw() == raw,
    {
        if raw == 0 {
            None
        } else {
            Some(Owned::from_raw(Context { identity: self.brand, raw }))
        }
    }
}

impl<'id> DropInPlace for Context<'id> {
    open(crate) spec fn held(&self) -> usize {
        self.raw
    }

    open spec fn releaser(&self) -> Native {
        Native::ContextDispose
    }

    fn drop_in_place(self) -> (call: Call<'static>)
        ensures
            no_null(call@.handles),
    {
        Call::plain(Native::ContextDispose, one(self.as_raw()))
    }
}

} // verus!
