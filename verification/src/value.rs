//! Values, which live inside a function.

use vstd::prelude::*;
use vstd::string::StringSliceAdditionalSpecFns;
use crate::block::Label;
use crate::call::{no_null, one, three, Branded, Call, CallView, Pending};
use crate::native::Native;
use crate::scope::{Scope, ScopeId};

verus! {

/// A value of the backend: a parameter or the result of an instruction. It
/// carries the scope of the function it was made in, and is accepted only by
/// operations of that function.
#[derive(Clone, Copy, Debug)]
pub struct Value<'fid, 'id> {
    pub(crate) scope: Scope<'fid, 'id>,
    pub(crate) raw: usize,
}

/// A phi node. It is a value, and may be used wherever a value is used; beyond
/// that it takes incoming edges.
#[derive(Debug)]
pub struct Phi<'fid, 'id> {
    pub(crate) value: Value<'fid, 'id>,
}

/// What is a `T` and more: it can be used as a `T` as it stands.
pub trait DerivesFrom<T> {
    /// The `T` that the value is.
    spec fn base(&self) -> T;

    /// The value, seen as a `T`. Nothing is copied or changed.
    fn upcast(&self) -> (base: &T)
        ensures
            *base == self.base(),
    ;
}

impl<'fid, 'id> Branded for Value<'fid, 'id> {
    /// The scope of the function.
    type Brand = Scope<'fid, 'id>;
}

impl<'fid, 'id> Branded for Phi<'fid, 'id> {
    /// The scope of the function.
    type Brand = Scope<'fid, 'id>;
}

impl<'fid, 'id> Value<'fid, 'id> {
    /// The scope of the function that the value was made in.
    pub open(crate) spec fn scope(&self) -> ScopeId {
        self.scope@
    }

    /// The handle of the value.
    pub open(crate) spec fn raw(&self) -> usize {
        self.raw
    }

    #[verifier::type_invariant]
    spec fn has_handle(&self) -> bool {
        self.raw != 0
    }

    /// The call that names the value `name`. The name is handed over with its
    /// length, so it may hold any bytes.
    pub fn set_name<'n>(&self, name: &'n str) -> (call: Call<'n>)
        ensures
            call@ == (CallView {
                function: Native::SetValueName2,
                handles: seq![self.raw()],
                texts: seq![name.spec_bytes()],
            }),
            no_null(call@.handles),
    {
        Call::with_text(Native::SetValueName2, one(self.as_raw()), name.as_bytes())
    }

    /// The call that prints the value for debugging.
    pub fn dump(&self) -> (call: Call<'static>)
        ensures
            call@ == (CallView {
                function: Native::DumpValue,
                handles: seq![self.raw()],
                texts: Seq::empty(),
            }),
            no_null(call@.handles),
    {
        Call::plain(Native::DumpValue, one(self.as_raw()))
    }

    /// Witnesses of the scope that the value was made in.
    pub fn scope_of(&self) -> (scope: Scope<'fid, 'id>)
        ensures
            scope@ == self.scope(),
    {
        self.scope
    }

    /// The handle of the value, as the backend gave it. It is never null.
    pub fn as_raw(&self) -> (raw: usize)
        ensures
            raw == self.raw(),
            raw != 0,
    {
        proof {
            use_type_invariant(self);
        }
        self.raw
    }
}

impl<'n, 'fid, 'id> Pending<'n, Value<'fid, 'id>> {
    /// Takes the handle that the backend answered with. A null handle means
    /// that the backend made no value.
    pub fn complete(self, raw: usize) -> (value: Option<Value<'fid, 'id>>)
        ensures
            value is Some <==> raw != 0,
            value is Some ==> value.unwrap().scope() == self.brand()@ && value.unwrap().raw()
                == raw,
    {
        if raw == 0 {
            None
        } else {
            Some(Value { scope: self.brand, raw })
        }
    }
}

impl<'fid, 'id> DerivesFrom<Value<'fid, 'id>> for Value<'fid, 'id> {
    open spec fn base(&self) -> Value<'fid, 'id> {
        *self
    }

    fn upcast(&self) -> (base: &Value<'fid, 'id>) {
        self
    }
}

impl<'fid, 'id> Phi<'fid, 'id> {
    /// The phi node as a value.
    pub open(crate) spec fn value(&self) -> Value<'fid, 'id> {
        self.value
    }

    /// The call that adds an edge to the node: `value` comes in from `block`.
    /// Both must live in the function of the node.
    pub fn add_incoming(&mut self, value: &Value<'_, 'id>, block: &Label<'_, 'id>) -> (call: Call<
        'static,
    >)
        requires
            value.scope() == old(self).value().scope(),
            block.scope() == old(self).value().scope(),
        ensures
            call@ == (CallView {
                function: Native::AddIncoming,
                handles: seq![old(self).value().raw(), value.raw(), block.raw()],
                texts: Seq::empty(),
            }),
            no_null(call@.handles),
            *final(self) == *old(self),
    {
        Call::plain(
            Native::AddIncoming,
            three(self.value.as_raw(), value.as_raw(), block.as_raw()),
        )
    }

    /// The phi node as a value.
    pub fn as_value(&self) -> (value: &Value<'fid, 'id>)
        ensures
            *value == self.value(),
    {
        &self.value
    }

    /// The handle of the node, as the backend gave it. It is never null.
    pub fn as_raw(&self) -> (raw: usize)
        ensures
            raw == self.value().raw(),
            raw != 0,
    {
        self.value.as_raw()
    }
}

impl<'n, 'fid, 'id> Pending<'n, Phi<'fid, 'id>> {
    /// Takes the handle that the backend answered with. A null handle means
    /// that the backend made no phi node.
    pub fn complete(self, raw: usize) -> (phi: Option<Phi<'fid, 'id>>)
        ensures
            phi is Some <==> raw != 0,
            phi is Some ==> phi.unwrap().value().scope() == self.brand()@
                && phi.unwrap().value().raw() == raw,
    {
        if raw == 0 {
            None
        } else {
            Some(Phi { value: Value { scope: self.brand, raw } })
        }
    }
}

impl<'fid, 'id> DerivesFrom<Value<'fid, 'id>> for Phi<'fid, 'id> {
    open(crate) spec fn base(&self) -> Value<'fid, 'id> {
        self.value
    }

    fn upcast(&self) -> (base: &Value<'fid, 'id>) {
        &self.value
    }
}

} // verus!
