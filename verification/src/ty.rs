//! Types, which belong to a context.

use vstd::prelude::*;
use crate::call::{no_null, one, Branded, Call, CallView, Pending};
use crate::context::Context;
use crate::id::IdentityRef;
use crate::native::Native;

verus! {

/// A type of the backend. Types are shared by everything in a context, so a
/// type carries the context's identity and no other.
#[derive(Clone, Copy, Debug)]
pub struct Type<'cid, 'id> {
    pub(crate) context: IdentityRef<'cid, 'id>,
    pub(crate) raw: usize,
}

impl<'cid, 'id> Branded for Type<'cid, 'id> {
    /// The witness of the context.
    type Brand = IdentityRef<'cid, 'id>;
}

/// The handles of `types`, in order.
pub open spec fn type_handles(types: Seq<Type<'_, '_>>) -> Seq<usize> {
    Seq::new(types.len(), |i: int| types[i].raw())
}

/// Every type in `types` belongs to the context with token `context`.
pub open spec fn types_in(types: Seq<Type<'_, '_>>, context: u64) -> bool {
    forall|i: int| 0 <= i < types.len() ==> (#[trigger] types[i]).context() == context
}

impl<'cid, 'id> Type<'cid, 'id> {
    /// The token of the context that the type belongs to.
    pub open(crate) spec fn context(&self) -> u64 {
        self.context.token()
    }

    /// The handle of the type.
    pub open(crate) spec fn raw(&self) -> usize {
        self.raw
    }

    #[verifier::type_invariant]
    spec fn has_handle(&self) -> bool {
        self.raw != 0
    }

    /// Asks for the 64-bit floating-point type of `context`.
    pub fn double(context: &'cid Context<'id>) -> (pending: Pending<'static, Type<'cid, 'id>>)
        ensures
            pending.request() == (CallView {
                function: Native::DoubleTypeInContext,
                handles: seq![context.raw()],
                texts: Seq::empty(),
            }),
            no_null(pending.request().handles),
            pending.brand().token() == context.id(),
    {
        Pending {
            call: Call::plain(Native::DoubleTypeInContext, one(context.as_raw())),
            brand: context.identity(),
        }
    }

    /// Asks for the integer type of `context` that is `bits` wide.
    pub fn integer(context: &'cid Context<'id>, bits: u32) -> (pending: Pending<
        'static,
        Type<'cid, 'id>,
    >)
        ensures
            pending.request() == (CallView {
                function: Native::IntTypeInContext(bits),
                handles: seq![context.raw()],
                texts: Seq::empty(),
            }),
            no_null(pending.request().handles),
            pending.brand().token() == context.id(),
    {
        Pending {
            call: Call::plain(Native::IntTypeInContext(bits), one(context.as_raw())),
            brand: context.identity(),
        }
    }

    /// Asks for the type of the functions that take `params` and return `ret`.
    /// All of them must belong to one context, which will be the context of
    /// the function type. The backend counts parameters in 32 bits: with more
    /// parameters than that there is nothing to ask for, and the answer is
    /// `None`.
    pub fn function(params: &[Type<'cid, 'id>], ret: Type<'cid, 'id>) -> (pending: Option<
        Pending<'static, Type<'cid, 'id>>,
    >)
        requires
            types_in(params@, ret.context()),
        ensures
            pending is Some <==> params@.len() <= u32::MAX,
            pending is Some ==> {
                &&& pending.unwrap().request() == (CallView {
                    function: Native::FunctionType,
                    handles: seq![ret.raw()] + type_handles(params@),
                    texts: Seq::empty(),
                })
                &&& no_null(pending.unwrap().request().handles)
                &&& pending.unwrap().brand().token() == ret.context()
            },
    {
        let count: usize = params.len();
        if count > u32::MAX as usize {
            return None;
        }
        let mut handles: Vec<usize> = Vec::new();
        handles.push(ret.as_raw());
        let mut i: usize = 0;
        while i < count
            invariant
                i <= count,
                count == params@.len(),
                handles@.len() == i + 1,
                handles@[0] == ret.raw(),
                forall|j: int| 0 <= j < i ==> handles@[j + 1] == params@[j].raw(),
                no_null(handles@),
            decreases count - i,
        {
            handles.push(params[i].as_raw());
            i = i + 1;
        }
        assert(handles@ =~= seq![ret.raw()] + type_handles(params@));
        Some(Pending { call: Call::plain(Native::FunctionType, handles), brand: ret.context })
    }

    /// Whether `other` belongs to the same context.
    pub fn same_context(&self, other: &Type<'_, 'id>) -> (same: bool)
        ensures
            same == (self.context() == other.context()),
    {
        self.context.same(&other.context)
    }

    /// A witness of the context that the type belongs to.
    pub fn context_id(&self) -> (witness: IdentityRef<'cid, 'id>)
        ensures
            witness.token() == self.context(),
    {
        self.context
    }

    /// The handle of the type, as the backend gave it. It is never null.
    pub fn as_raw(&self) -> (raw: usize)
        ensures
            raw == self.raw(),
            raw != 0,
    {
        proof {
            use_type_invariant(self);
        }
        self.raw
    }
}

impl<'n, 'cid, 'id> Pending<'n, Type<'cid, 'id>> {
    /// Takes the handle that the backend answered with. A null handle means
    /// that the backend made no type.
    pub fn complete(self, raw: usize) -> (ty: Option<Type<'cid, 'id>>)
        ensures
            ty is Some <==> raw != 0,
            ty is Some ==> ty.unwrap().context() == self.brand().token() && ty.unwrap().raw()
                == raw,
    {
        if raw == 0 {
            None
        } else {
            Some(Type { context: self.brand, raw })
        }
    }
}

} // verus!
