//! Instruction builders.
//!
//! A [`Builder`] emits nothing. Positioning it on a block borrows both and
//! yields a [`PositionedBuilder`], the only type that has instructions to
//! offer. Each instruction appends to the block's record, and answers with the
//! call to perform and the value that the call will produce, branded with the
//! scope of the block's function.

use vstd::prelude::*;
use crate::block::{BasicBlock, Label};
use crate::call::{no_null, one, three, two, Branded, Call, CallView, Pending};
use crate::context::Context;
use crate::function::FunctionLabel;
use crate::id::IdentityRef;
use crate::native::{Native, Opcode};
use crate::nulstr::NulStr;
use crate::owned::{DropInPlace, Owned};
use crate::scope::ScopeId;
use crate::ty::Type;
use crate::value::{Phi, Value};

verus! {

/// A builder of the backend. By itself it emits nothing; it remembers the
/// block that it was last put on.
#[derive(Debug)]
pub struct Builder<'cid, 'id> {
    pub(crate) context: IdentityRef<'cid, 'id>,
    pub(crate) raw: usize,
    pub(crate) at: usize,
}

/// A builder that stands at the end of a block. It borrows the builder and
/// the block for as long as it exists; when it is gone, both are back with
/// their owners, the block with what was appended to it.
///
/// Only [`Builder::position_at_end`] makes one. The two borrows can be
/// read, and nothing keeps a caller from putting another block in place of
/// the one that the builder was put on; so every instruction asks for
/// [`positioned`](PositionedBuilder::positioned), which holds as long as the
/// builder is moved by `position_at_end` alone, and which
/// [`is_positioned`](PositionedBuilder::is_positioned) tests.
#[derive(Debug)]
#[non_exhaustive]
pub struct PositionedBuilder<'p, 'cid, 'fid, 'id> {
    pub builder: &'p mut Builder<'cid, 'id>,
    pub block: &'p mut BasicBlock<'fid, 'id>,
}

impl<'cid, 'id> Branded for Builder<'cid, 'id> {
    /// The witness of the context.
    type Brand = IdentityRef<'cid, 'id>;
}

impl<'cid, 'id> Builder<'cid, 'id> {
    /// The token of the context that the builder belongs to.
    pub open(crate) spec fn context(&self) -> u64 {
        self.context.token()
    }

    /// The handle of the builder.
    pub open(crate) spec fn raw(&self) -> usize {
        self.raw
    }

    /// The handle of the block that the builder was last put on, null if
    /// there is none.
    pub open(crate) spec fn at(&self) -> usize {
        self.at
    }

    /// The same builder, put on the block with handle `block`.
    pub open(crate) spec fn put(self, block: usize) -> Builder<'cid, 'id> {
        Builder { context: self.context, raw: self.raw, at: block }
    }

    #[verifier::type_invariant]
    spec fn has_handle(&self) -> bool {
        self.raw != 0
    }

    /// Asks for a builder in `context`.
    pub fn new(context: &'cid Context<'id>) -> (pending: Pending<'static, Builder<'cid, 'id>>)
        ensures
            pending.request() == (CallView {
                function: Native::CreateBuilderInContext,
                handles: seq![context.raw()],
                texts: Seq::empty(),
            }),
            no_null(pending.request().handles),
            pending.brand().token() == context.id(),
    {
        Pending {
            call: Call::plain(Native::CreateBuilderInContext, one(context.as_raw())),
            brand: context.identity(),
        }
    }

    /// Puts the builder at the end of `block`, which must belong to the
    /// builder's context. Answers with the positioned builder and the call that
    /// moves the backend's builder there. The block is as it was.
    pub fn position_at_end<'p, 'fid>(
        &'p mut self,
        block: &'p mut BasicBlock<'fid, 'id>,
    ) -> (positioned: (PositionedBuilder<'p, 'cid, 'fid, 'id>, Call<'static>))
        requires
            block.scope().context == old(self).context(),
        ensures
            *positioned.0.builder == old(self).put(old(block).raw()),
            *positioned.0.block == *old(block),
            *final(positioned.0.builder) == *final(self),
            *final(positioned.0.block) == *final(block),
            positioned.0.positioned(),
            positioned.1@ == (CallView {
                function: Native::PositionBuilderAtEnd,
                handles: seq![old(self).raw(), old(block).raw()],
                texts: Seq::empty(),
            }),
            no_null(positioned.1@.handles),
    {
        let at: usize = block.as_raw();
        let call = Call::plain(Native::PositionBuilderAtEnd, two(self.as_raw(), at));
        self.at = at;
        (PositionedBuilder { builder: self, block }, call)
    }

    /// Whether `block` belongs to the builder's context, so that the builder
    /// can be positioned on it.
    pub fn accepts_block(&self, block: &BasicBlock<'_, 'id>) -> (accepted: bool)
        ensures
            accepted == (block.scope().context == self.context()),
    {
        self.context.same(&block.label.scope.context)
    }

    /// A witness of the context that the builder belongs to.
    pub fn context_id(&self) -> (witness: IdentityRef<'cid, 'id>)
        ensures
            witness.token() == self.context(),
    {
        self.context
    }

    /// The handle of the builder, as the backend gave it. It is never null.
    pub fn as_raw(&self) -> (raw: usize)
        ensures
            raw == self.raw(),
            raw != 0,
    {
        proof {
            use_type_invariant(self);
        }
        self.raw
    }
}

impl<'n, 'cid, 'id> Pending<'n, Builder<'cid, 'id>> {
    /// Takes the handle that the backend answered with. A null handle means
    /// that the backend made no builder. A new builder stands nowhere.
    pub fn complete(self, raw: usize) -> (builder: Option<Owned<Builder<'cid, 'id>>>)
        ensures
            builder is Some <==> raw != 0,
            builder is Some ==> {
                &&& builder.unwrap()@.context() == self.brand().token()
                &&& builder.unwrap()@.raw() == raw
                &&& builder.unwrap()@.at() == 0
            },
    {
        if raw == 0 {
            None
        } else {
            Some(Owned::from_raw(Builder { context: self.brand, raw, at: 0 }))
        }
    }
}

impl<'cid, 'id> DropInPlace for Builder<'cid, 'id> {
    open(crate) spec fn held(&self) -> usize {
        self.raw
    }

    open spec fn releaser(&self) -> Native {
        Native::DisposeBuilder
    }

    fn drop_in_place(self) -> (call: Call<'static>)
        ensures
            no_null(call@.handles),
    {
        Call::plain(Native::DisposeBuilder, one(self.as_raw()))
    }
}

impl<'p, 'cid, 'fid, 'id> PositionedBuilder<'p, 'cid, 'fid, 'id> {
    /// The handle of the builder.
    pub open spec fn raw(&self) -> usize {
        self.builder.raw()
    }

    /// The scope of the function that the builder stands in.
    pub open spec fn scope(&self) -> ScopeId {
        self.block.scope()
    }

    /// The handle of the block that the builder stands on.
    pub open spec fn block(&self) -> usize {
        self.block.raw()
    }

    /// The record of the block that the builder stands on.
    pub open spec fn record(&self) -> Seq<Opcode> {
        self.block.record()
    }

    /// The builder was put on the block, and both belong to one context:
    /// what the builder emits goes to the end of the block.
    pub open spec fn positioned(&self) -> bool {
        &&& self.builder.at() == self.block.raw()
        &&& self.builder.context() == self.block.scope().context
    }

    /// `value` was made in the function that the builder stands in.
    pub open spec fn admits(&self, value: Value<'_, '_>) -> bool {
        value.scope() == self.scope()
    }

    /// `ty` belongs to the context that the builder stands in.
    pub open spec fn admits_type(&self, ty: Type<'_, '_>) -> bool {
        ty.context() == self.scope().context
    }

    /// `label` names a block of the function that the builder stands in.
    pub open spec fn admits_label(&self, label: Label<'_, '_>) -> bool {
        label.scope() == self.scope()
    }

    /// `callee` is a function of the module that the builder stands in.
    pub open spec fn admits_callee(&self, callee: FunctionLabel<'_, '_>) -> bool {
        callee.context() == self.scope().context && callee.module() == self.scope().module
    }

    /// `after` is this builder once it has appended `opcode`: one more
    /// instruction at the end of the same block, and nothing else is different.
    pub open spec fn appends(
        self,
        after: PositionedBuilder<'_, '_, '_, '_>,
        opcode: Opcode,
    ) -> bool {
        &&& *after.builder == *self.builder
        &&& after.block.scope() == self.block.scope()
        &&& after.block.raw() == self.block.raw()
        &&& after.block.record() == self.block.record().push(opcode)
    }

    /// `pending` is what appending `opcode` answers with: the call hands the
    /// builder and `operands`, none of them null, to the function that builds
    /// `opcode`, with `texts` for the name, and its result will be a value of
    /// the builder's function.
    pub open spec fn answers(
        self,
        pending: Pending<'_, Value<'_, '_>>,
        opcode: Opcode,
        operands: Seq<usize>,
        texts: Seq<Seq<u8>>,
    ) -> bool {
        &&& pending.request() == (CallView {
            function: Native::Build(opcode),
            handles: seq![self.raw()] + operands,
            texts,
        })
        &&& no_null(pending.request().handles)
        &&& pending.brand()@ == self.scope()
    }

    /// The handles of `values`, in order.
    pub open spec fn handles_of(values: Seq<&Value<'_, '_>>) -> Seq<usize> {
        Seq::new(values.len(), |i: int| values[i].raw())
    }

    /// Every value in `values` was made in the function that the builder
    /// stands in.
    pub open spec fn admits_all(&self, values: Seq<&Value<'_, '_>>) -> bool {
        forall|i: int| 0 <= i < values.len() ==> self.admits(*#[trigger] values[i])
    }

    fn append(&mut self, opcode: Opcode, operands: Vec<usize>) -> (handles: Vec<usize>)
        requires
            no_null(operands@),
        ensures
            old(self).appends(*final(self), opcode),
            handles@ == seq![old(self).raw()] + operands@,
            no_null(handles@),
            *final(final(self).builder) == *final(old(self).builder),
            *final(final(self).block) == *final(old(self).block),
    {
        let raw: usize = self.builder.as_raw();
        let mut handles = operands;
        handles.insert(0, raw);
        assert(handles@ =~= seq![raw] + operands@);
        self.block.instructions.push(opcode);
        handles
    }

    fn named<'n>(&mut self, opcode: Opcode, operands: Vec<usize>, name: NulStr<'n>) -> (pending:
        Pending<'n, Value<'fid, 'id>>)
        requires
            no_null(operands@),
        ensures
            old(self).appends(*final(self), opcode),
            old(self).answers(pending, opcode, operands@, seq![name.bytes()]),
            *final(final(self).builder) == *final(old(self).builder),
            *final(final(self).block) == *final(old(self).block),
    {
        let handles = self.append(opcode, operands);
        Pending {
            call: Call::with_text(Native::Build(opcode), handles, name.as_bytes_with_nul()),
            brand: self.block.label.scope,
        }
    }

    fn unnamed(&mut self, opcode: Opcode, operands: Vec<usize>) -> (pending: Pending<
        'static,
        Value<'fid, 'id>,
    >)
        requires
            no_null(operands@),
        ensures
            old(self).appends(*final(self), opcode),
            old(self).answers(pending, opcode, operands@, Seq::empty()),
            *final(final(self).builder) == *final(old(self).builder),
            *final(final(self).block) == *final(old(self).block),
    {
        let handles = self.append(opcode, operands);
        Pending {
            call: Call::plain(Native::Build(opcode), handles),
            brand: self.block.label.scope,
        }
    }

    /// Appends a branch to `target`.
    pub fn br(&mut self, target: &Label<'_, 'id>) -> (pending: Pending<'static, Value<'fid, 'id>>)
        requires
            old(self).positioned(),
            old(self).admits_label(*target),
        ensures
            old(self).appends(*final(self), Opcode::Br),
            old(self).answers(pending, Opcode::Br, seq![target.raw()], Seq::empty()),
            *final(final(self).builder) == *final(old(self).builder),
            *final(final(self).block) == *final(old(self).block),
    {
        self.unnamed(Opcode::Br, one(target.as_raw()))
    }

    /// Appends a branch to `then_block` if `cond` holds, to `else_block` if not.
    pub fn cond_br(
        &mut self,
        cond: &Value<'_, 'id>,
        then_block: &Label<'_, 'id>,
        else_block: &Label<'_, 'id>,
    ) -> (pending: Pending<'static, Value<'fid, 'id>>)
        requires
            old(self).positioned(),
            old(self).admits(*cond),
            old(self).admits_label(*then_block),
            old(self).admits_label(*else_block),
        ensures
            old(self).appends(*final(self), Opcode::CondBr),
            old(self).answers(
                pending,
                Opcode::CondBr,
                seq![cond.raw(), then_block.raw(), else_block.raw()],
                Seq::empty(),
            ),
            *final(final(self).builder) == *final(old(self).builder),
            *final(final(self).block) == *final(old(self).block),
    {
        self.unnamed(
            Opcode::CondBr,
            three(cond.as_raw(), then_block.as_raw(), else_block.as_raw()),
        )
    }

    /// Appends the integer sum of `lhs` and `rhs`.
    pub fn add<'n>(
        &mut self,
        lhs: &Value<'_, 'id>,
        rhs: &Value<'_, 'id>,
        name: NulStr<'n>,
    ) -> (pending: Pending<'n, Value<'fid, 'id>>)
        requires
            old(self).positioned(),
            old(self).admits(*lhs),
            old(self).admits(*rhs),
        ensures
            old(self).appends(*final(self), Opcode::Add),
            old(self).answers(
                pending,
                Opcode::Add,
                seq![lhs.raw(), rhs.raw()],
                seq![name.bytes()],
            ),
            *final(final(self).builder) == *final(old(self).builder),
            *final(final(self).block) == *final(old(self).block),
    {
        self.named(Opcode::Add, two(lhs.as_raw(), rhs.as_raw()), name)
    }

    /// Appends the floating-point sum of `lhs` and `rhs`.
    pub fn fadd<'n>(
        &mut self,
        lhs: &Value<'_, 'id>,
        rhs: &Value<'_, 'id>,
        name: NulStr<'n>,
    ) -> (pending: Pending<'n, Value<'fid, 'id>>)
        requires
            old(self).positioned(),
            old(self).admits(*lhs),
            old(self).admits(*rhs),
        ensures
            old(self).appends(*final(self), Opcode::FAdd),
            old(self).answers(
                pending,
                Opcode::FAdd,
                seq![lhs.raw(), rhs.raw()],
                seq![name.bytes()],
            ),
            *final(final(self).builder) == *final(old(self).builder),
            *final(final(self).block) == *final(old(self).block),
    {
        self.named(Opcode::FAdd, two(lhs.as_raw(), rhs.as_raw()), name)
    }

    /// Appends the integer difference of `lhs` and `rhs`.
    pub fn sub<'n>(
        &mut self,
        lhs: &Value<'_, 'id>,
        rhs: &Value<'_, 'id>,
        name: NulStr<'n>,
    ) -> (pending: Pending<'n, Value<'fid, 'id>>)
        requires
            old(self).positioned(),
            old(self).admits(*lhs),
            old(self).admits(*rhs),
        ensures
            old(self).appends(*final(self), Opcode::Sub),
            old(self).answers(
                pending,
                Opcode::Sub,
                seq![lhs.raw(), rhs.raw()],
                seq![name.bytes()],
            ),
            *final(final(self).builder) == *final(old(self).builder),
            *final(final(self).block) == *final(old(self).block),
    {
        self.named(Opcode::Sub, two(lhs.as_raw(), rhs.as_raw()), name)
    }

    /// Appends the floating-point difference of `lhs` and `rhs`.
    pub fn fsub<'n>(
        &mut self,
        lhs: &Value<'_, 'id>,
        rhs: &Value<'_, 'id>,
        name: NulStr<'n>,
    ) -> (pending: Pending<'n, Value<'fid, 'id>>)
        requires
            old(self).positioned(),
            old(self).admits(*lhs),
            old(self).admits(*rhs),
        ensures
            old(self).appends(*final(self), Opcode::FSub),
            old(self).answers(
                pending,
                Opcode::FSub,
                seq![lhs.raw(), rhs.raw()],
                seq![name.bytes()],
            ),
            *final(final(self).builder) == *final(old(self).builder),
            *final(final(self).block) == *final(old(self).block),
    {
        self.named(Opcode::FSub, two(lhs.as_raw(), rhs.as_raw()), name)
    }

    /// Appends the integer product of `lhs` and `rhs`.
    pub fn mul<'n>(
        &mut self,
        lhs: &Value<'_, 'id>,
        rhs: &Value<'_, 'id>,
        name: NulStr<'n>,
    ) -> (pending: Pending<'n, Value<'fid, 'id>>)
        requires
            old(self).positioned(),
            old(self).admits(*lhs),
            old(self).admits(*rhs),
        ensures
            old(self).appends(*final(self), Opcode::Mul),
            old(self).answers(
                pending,
                Opcode::Mul,
                seq![lhs.raw(), rhs.raw()],
                seq![name.bytes()],
            ),
            *final(final(self).builder) == *final(old(self).builder),
            *final(final(self).block) == *final(old(self).block),
    {
        self.named(Opcode::Mul, two(lhs.as_raw(), rhs.as_raw()), name)
    }

    /// Appends the floating-point product of `lhs` and `rhs`.
    pub fn fmul<'n>(
        &mut self,
        lhs: &Value<'_, 'id>,
        rhs: &Value<'_, 'id>,
        name: NulStr<'n>,
    ) -> (pending: Pending<'n, Value<'fid, 'id>>)
        requires
            old(self).positioned(),
            old(self).admits(*lhs),
            old(self).admits(*rhs),
        ensures
            old(self).appends(*final(self), Opcode::FMul),
            old(self).answers(
                pending,
                Opcode::FMul,
                seq![lhs.raw(), rhs.raw()],
                seq![name.bytes()],
            ),
            *final(final(self).builder) == *final(old(self).builder),
            *final(final(self).block) == *final(old(self).block),
    {
        self.named(Opcode::FMul, two(lhs.as_raw(), rhs.as_raw()), name)
    }

    /// Appends the unsigned quotient of `lhs` and `rhs`.
    pub fn udiv<'n>(
        &mut self,
        lhs: &Value<'_, 'id>,
        rhs: &Value<'_, 'id>,
        name: NulStr<'n>,
    ) -> (pending: Pending<'n, Value<'fid, 'id>>)
        requires
            old(self).positioned(),
            old(self).admits(*lhs),
            old(self).admits(*rhs),
        ensures
            old(self).appends(*final(self), Opcode::UDiv),
            old(self).answers(
                pending,
                Opcode::UDiv,
                seq![lhs.raw(), rhs.raw()],
                seq![name.bytes()],
            ),
            *final(final(self).builder) == *final(old(self).builder),
            *final(final(self).block) == *final(old(self).block),
    {
        self.named(Opcode::UDiv, two(lhs.as_raw(), rhs.as_raw()), name)
    }

    /// Appends the signed quotient of `lhs` and `rhs`.
    pub fn sdiv<'n>(
        &mut self,
        lhs: &Value<'_, 'id>,
        rhs: &Value<'_, 'id>,
        name: NulStr<'n>,
    ) -> (pending: Pending<'n, Value<'fid, 'id>>)
        requires
            old(self).positioned(),
            old(self).admits(*lhs),
            old(self).admits(*rhs),
        ensures
            old(self).appends(*final(self), Opcode::SDiv),
            old(self).answers(
                pending,
                Opcode::SDiv,
                seq![lhs.raw(), rhs.raw()],
                seq![name.bytes()],
            ),
            *final(final(self).builder) == *final(old(self).builder),
            *final(final(self).block) == *final(old(self).block),
    {
        self.named(Opcode::SDiv, two(lhs.as_raw(), rhs.as_raw()), name)
    }

    /// Appends the floating-point quotient of `lhs` and `rhs`.
    pub fn fdiv<'n>(
        &mut self,
        lhs: &Value<'_, 'id>,
        rhs: &Value<'_, 'id>,
        name: NulStr<'n>,
    ) -> (pending: Pending<'n, Value<'fid, 'id>>)
        requires
            old(self).positioned(),
            old(self).admits(*lhs),
            old(self).admits(*rhs),
        ensures
            old(self).appends(*final(self), Opcode::FDiv),
            old(self).answers(
                pending,
                Opcode::FDiv,
                seq![lhs.raw(), rhs.raw()],
                seq![name.bytes()],
            ),
            *final(final(self).builder) == *final(old(self).builder),
            *final(final(self).block) == *final(old(self).block),
    {
        self.named(Opcode::FDiv, two(lhs.as_raw(), rhs.as_raw()), name)
    }

    /// Appends the unsigned remainder of `lhs` and `rhs`.
    pub fn urem<'n>(
        &mut self,
        lhs: &Value<'_, 'id>,
        rhs: &Value<'_, 'id>,
        name: NulStr<'n>,
    ) -> (pending: Pending<'n, Value<'fid, 'id>>)
        requires
            old(self).positioned(),
            old(self).admits(*lhs),
            old(self).admits(*rhs),
        ensures
            old(self).appends(*final(self), Opcode::URem),
            old(self).answers(
                pending,
                Opcode::URem,
                seq![lhs.raw(), rhs.raw()],
                seq![name.bytes()],
            ),
            *final(final(self).builder) == *final(old(self).builder),
            *final(final(self).block) == *final(old(self).block),
    {
        self.named(Opcode::URem, two(lhs.as_raw(), rhs.as_raw()), name)
    }

    /// Appends the signed remainder of `lhs` and `rhs`.
    pub fn srem<'n>(
        &mut self,
        lhs: &Value<'_, 'id>,
        rhs: &Value<'_, 'id>,
        name: NulStr<'n>,
    ) -> (pending: Pending<'n, Value<'fid, 'id>>)
        requires
            old(self).positioned(),
            old(self).admits(*lhs),
            old(self).admits(*rhs),
        ensures
            old(self).appends(*final(self), Opcode::SRem),
            old(self).answers(
                pending,
                Opcode::SRem,
                seq![lhs.raw(), rhs.raw()],
                seq![name.bytes()],
            ),
            *final(final(self).builder) == *final(old(self).builder),
            *final(final(self).block) == *final(old(self).block),
    {
        self.named(Opcode::SRem, two(lhs.as_raw(), rhs.as_raw()), name)
    }

    /// Appends the floating-point remainder of `lhs` and `rhs`.
    pub fn frem<'n>(
        &mut self,
        lhs: &Value<'_, 'id>,
        rhs: &Value<'_, 'id>,
        name: NulStr<'n>,
    ) -> (pending: Pending<'n, Value<'fid, 'id>>)
        requires
            old(self).positioned(),
            old(self).admits(*lhs),
            old(self).admits(*rhs),
        ensures
            old(self).appends(*final(self), Opcode::FRem),
            old(self).answers(
                pending,
                Opcode::FRem,
                seq![lhs.raw(), rhs.raw()],
                seq![name.bytes()],
            ),
            *final(final(self).builder) == *final(old(self).builder),
            *final(final(self).block) == *final(old(self).block),
    {
        self.named(Opcode::FRem, two(lhs.as_raw(), rhs.as_raw()), name)
    }

    /// Appends the left shift of `lhs` and `rhs`.
    pub fn shl<'n>(
        &mut self,
        lhs: &Value<'_, 'id>,
        rhs: &Value<'_, 'id>,
        name: NulStr<'n>,
    ) -> (pending: Pending<'n, Value<'fid, 'id>>)
        requires
            old(self).positioned(),
            old(self).admits(*lhs),
            old(self).admits(*rhs),
        ensures
            old(self).appends(*final(self), Opcode::Shl),
            old(self).answers(
                pending,
                Opcode::Shl,
                seq![lhs.raw(), rhs.raw()],
                seq![name.bytes()],
            ),
            *final(final(self).builder) == *final(old(self).builder),
            *final(final(self).block) == *final(old(self).block),
    {
        self.named(Opcode::Shl, two(lhs.as_raw(), rhs.as_raw()), name)
    }

    /// Appends the logical right shift of `lhs` and `rhs`.
    pub fn lshr<'n>(
        &mut self,
        lhs: &Value<'_, 'id>,
        rhs: &Value<'_, 'id>,
        name: NulStr<'n>,
    ) -> (pending: Pending<'n, Value<'fid, 'id>>)
        requires
            old(self).positioned(),
            old(self).admits(*lhs),
            old(self).admits(*rhs),
        ensures
            old(self).appends(*final(self), Opcode::LShr),
            old(self).answers(
                pending,
                Opcode::LShr,
                seq![lhs.raw(), rhs.raw()],
                seq![name.bytes()],
            ),
            *final(final(self).builder) == *final(old(self).builder),
            *final(final(self).block) == *final(old(self).block),
    {
        self.named(Opcode::LShr, two(lhs.as_raw(), rhs.as_raw()), name)
    }

    /// Appends the arithmetic right shift of `lhs` and `rhs`.
    pub fn ashr<'n>(
        &mut self,
        lhs: &Value<'_, 'id>,
        rhs: &Value<'_, 'id>,
        name: NulStr<'n>,
    ) -> (pending: Pending<'n, Value<'fid, 'id>>)
        requires
            old(self).positioned(),
            old(self).admits(*lhs),
            old(self).admits(*rhs),
        ensures
            old(self).appends(*final(self), Opcode::AShr),
            old(self).answers(
                pending,
                Opcode::AShr,
                seq![lhs.raw(), rhs.raw()],
                seq![name.bytes()],
            ),
            *final(final(self).builder) == *final(old(self).builder),
            *final(final(self).block) == *final(old(self).block),
    {
        self.named(Opcode::AShr, two(lhs.as_raw(), rhs.as_raw()), name)
    }

    /// Appends the bitwise conjunction of `lhs` and `rhs`.
    pub fn and<'n>(
        &mut self,
        lhs: &Value<'_, 'id>,
        rhs: &Value<'_, 'id>,
        name: NulStr<'n>,
    ) -> (pending: Pending<'n, Value<'fid, 'id>>)
        requires
            old(self).positioned(),
            old(self).admits(*lhs),
            old(self).admits(*rhs),
        ensures
            old(self).appends(*final(self), Opcode::And),
            old(self).answers(
                pending,
                Opcode::And,
                seq![lhs.raw(), rhs.raw()],
                seq![name.bytes()],
            ),
            *final(final(self).builder) == *final(old(self).builder),
            *final(final(self).block) == *final(old(self).block),
    {
        self.named(Opcode::And, two(lhs.as_raw(), rhs.as_raw()), name)
    }

    /// Appends the bitwise disjunction of `lhs` and `rhs`.
    pub fn or<'n>(
        &mut self,
        lhs: &Value<'_, 'id>,
        rhs: &Value<'_, 'id>,
        name: NulStr<'n>,
    ) -> (pending: Pending<'n, Value<'fid, 'id>>)
        requires
            old(self).positioned(),
            old(self).admits(*lhs),
            old(self).admits(*rhs),
        ensures
            old(self).appends(*final(self), Opcode::Or),
            old(self).answers(
                pending,
                Opcode::Or,
                seq![lhs.raw(), rhs.raw()],
                seq![name.bytes()],
            ),
            *final(final(self).builder) == *final(old(self).builder),
            *final(final(self).block) == *final(old(self).block),
    {
        self.named(Opcode::Or, two(lhs.as_raw(), rhs.as_raw()), name)
    }

    /// Appends the bitwise exclusive disjunction of `lhs` and `rhs`.
    pub fn xor<'n>(
        &mut self,
        lhs: &Value<'_, 'id>,
        rhs: &Value<'_, 'id>,
        name: NulStr<'n>,
    ) -> (pending: Pending<'n, Value<'fid, 'id>>)
        requires
            old(self).positioned(),
            old(self).admits(*lhs),
            old(self).admits(*rhs),
        ensures
            old(self).appends(*final(self), Opcode::Xor),
            old(self).answers(
                pending,
                Opcode::Xor,
                seq![lhs.raw(), rhs.raw()],
                seq![name.bytes()],
            ),
            *final(final(self).builder) == *final(old(self).builder),
            *final(final(self).block) == *final(old(self).block),
    {
        self.named(Opcode::Xor, two(lhs.as_raw(), rhs.as_raw()), name)
    }

    /// Appends the integer negation of `value`.
    pub fn neg<'n>(&mut self, value: &Value<'_, 'id>, name: NulStr<'n>) -> (pending: Pending<
        'n,
        Value<'fid, 'id>,
    >)
        requires
            old(self).positioned(),
            old(self).admits(*value),
        ensures
            old(self).appends(*final(self), Opcode::Neg),
            old(self).answers(pending, Opcode::Neg, seq![value.raw()], seq![name.bytes()]),
            *final(final(self).builder) == *final(old(self).builder),
            *final(final(self).block) == *final(old(self).block),
    {
        self.named(Opcode::Neg, one(value.as_raw()), name)
    }

    /// Appends the floating-point negation of `value`.
    pub fn fneg<'n>(&mut self, value: &Value<'_, 'id>, name: NulStr<'n>) -> (pending: Pending<
        'n,
        Value<'fid, 'id>,
    >)
        requires
            old(self).positioned(),
            old(self).admits(*value),
        ensures
            old(self).appends(*final(self), Opcode::FNeg),
            old(self).answers(pending, Opcode::FNeg, seq![value.raw()], seq![name.bytes()]),
            *final(final(self).builder) == *final(old(self).builder),
            *final(final(self).block) == *final(old(self).block),
    {
        self.named(Opcode::FNeg, one(value.as_raw()), name)
    }

    /// Appends the bitwise complement of `value`.
    pub fn not<'n>(&mut self, value: &Value<'_, 'id>, name: NulStr<'n>) -> (pending: Pending<
        'n,
        Value<'fid, 'id>,
    >)
        requires
            old(self).positioned(),
            old(self).admits(*value),
        ensures
            old(self).appends(*final(self), Opcode::Not),
            old(self).answers(pending, Opcode::Not, seq![value.raw()], seq![name.bytes()]),
            *final(final(self).builder) == *final(old(self).builder),
            *final(final(self).block) == *final(old(self).block),
    {
        self.named(Opcode::Not, one(value.as_raw()), name)
    }

    /// Appends the integer comparison of `lhs` and `rhs` by `pred`.
    pub fn icmp<'n>(
        &mut self,
        pred: llvm_sys::LLVMIntPredicate,
        lhs: &Value<'_, 'id>,
        rhs: &Value<'_, 'id>,
        name: NulStr<'n>,
    ) -> (pending: Pending<'n, Value<'fid, 'id>>)
        requires
            old(self).positioned(),
            old(self).admits(*lhs),
            old(self).admits(*rhs),
        ensures
            old(self).appends(*final(self), Opcode::ICmp(pred)),
            old(self).answers(
                pending,
                Opcode::ICmp(pred),
                seq![lhs.raw(), rhs.raw()],
                seq![name.bytes()],
            ),
            *final(final(self).builder) == *final(old(self).builder),
            *final(final(self).block) == *final(old(self).block),
    {
        self.named(Opcode::ICmp(pred), two(lhs.as_raw(), rhs.as_raw()), name)
    }

    /// Appends the floating-point comparison of `lhs` and `rhs` by `pred`.
    pub fn fcmp<'n>(
        &mut self,
        pred: llvm_sys::LLVMRealPredicate,
        lhs: &Value<'_, 'id>,
        rhs: &Value<'_, 'id>,
        name: NulStr<'n>,
    ) -> (pending: Pending<'n, Value<'fid, 'id>>)
        requires
            old(self).positioned(),
            old(self).admits(*lhs),
            old(self).admits(*rhs),
        ensures
            old(self).appends(*final(self), Opcode::FCmp(pred)),
            old(self).answers(
                pending,
                Opcode::FCmp(pred),
                seq![lhs.raw(), rhs.raw()],
                seq![name.bytes()],
            ),
            *final(final(self).builder) == *final(old(self).builder),
            *final(final(self).block) == *final(old(self).block),
    {
        self.named(Opcode::FCmp(pred), two(lhs.as_raw(), rhs.as_raw()), name)
    }

    /// Appends the integer truncation of `value` to `dest_ty`.
    pub fn trunc<'n>(
        &mut self,
        value: &Value<'_, 'id>,
        dest_ty: &Type<'_, 'id>,
        name: NulStr<'n>,
    ) -> (pending: Pending<'n, Value<'fid, 'id>>)
        requires
            old(self).positioned(),
            old(self).admits(*value),
            old(self).admits_type(*dest_ty),
        ensures
            old(self).appends(*final(self), Opcode::Trunc),
            old(self).answers(
                pending,
                Opcode::Trunc,
                seq![value.raw(), dest_ty.raw()],
                seq![name.bytes()],
            ),
            *final(final(self).builder) == *final(old(self).builder),
            *final(final(self).block) == *final(old(self).block),
    {
        self.named(Opcode::Trunc, two(value.as_raw(), dest_ty.as_raw()), name)
    }

    /// Appends the floating-point truncation of `value` to `dest_ty`.
    pub fn fp_trunc<'n>(
        &mut self,
        value: &Value<'_, 'id>,
        dest_ty: &Type<'_, 'id>,
        name: NulStr<'n>,
    ) -> (pending: Pending<'n, Value<'fid, 'id>>)
        requires
            old(self).positioned(),
            old(self).admits(*value),
            old(self).admits_type(*dest_ty),
        ensures
            old(self).appends(*final(self), Opcode::FPTrunc),
            old(self).answers(
                pending,
                Opcode::FPTrunc,
                seq![value.raw(), dest_ty.raw()],
                seq![name.bytes()],
            ),
            *final(final(self).builder) == *final(old(self).builder),
            *final(final(self).block) == *final(old(self).block),
    {
        self.named(Opcode::FPTrunc, two(value.as_raw(), dest_ty.as_raw()), name)
    }

    /// Appends the zero extension of `value` to `dest_ty`.
    pub fn zext<'n>(
        &mut self,
        value: &Value<'_, 'id>,
        dest_ty: &Type<'_, 'id>,
        name: NulStr<'n>,
    ) -> (pending: Pending<'n, Value<'fid, 'id>>)
        requires
            old(self).positioned(),
            old(self).admits(*value),
            old(self).admits_type(*dest_ty),
        ensures
            old(self).appends(*final(self), Opcode::ZExt),
            old(self).answers(
                pending,
                Opcode::ZExt,
                seq![value.raw(), dest_ty.raw()],
                seq![name.bytes()],
            ),
            *final(final(self).builder) == *final(old(self).builder),
            *final(final(self).block) == *final(old(self).block),
    {
        self.named(Opcode::ZExt, two(value.as_raw(), dest_ty.as_raw()), name)
    }

    /// Appends the sign extension of `value` to `dest_ty`.
    pub fn sext<'n>(
        &mut self,
        value: &Value<'_, 'id>,
        dest_ty: &Type<'_, 'id>,
        name: NulStr<'n>,
    ) -> (pending: Pending<'n, Value<'fid, 'id>>)
        requires
            old(self).positioned(),
            old(self).admits(*value),
            old(self).admits_type(*dest_ty),
        ensures
            old(self).appends(*final(self), Opcode::SExt),
            old(self).answers(
                pending,
                Opcode::SExt,
                seq![value.raw(), dest_ty.raw()],
                seq![name.bytes()],
            ),
            *final(final(self).builder) == *final(old(self).builder),
            *final(final(self).block) == *final(old(self).block),
    {
        self.named(Opcode::SExt, two(value.as_raw(), dest_ty.as_raw()), name)
    }

    /// Appends the floating-point extension of `value` to `dest_ty`.
    pub fn fp_ext<'n>(
        &mut self,
        value: &Value<'_, 'id>,
        dest_ty: &Type<'_, 'id>,
        name: NulStr<'n>,
    ) -> (pending: Pending<'n, Value<'fid, 'id>>)
        requires
            old(self).positioned(),
            old(self).admits(*value),
            old(self).admits_type(*dest_ty),
        ensures
            old(self).appends(*final(self), Opcode::FPExt),
            old(self).answers(
                pending,
                Opcode::FPExt,
                seq![value.raw(), dest_ty.raw()],
                seq![name.bytes()],
            ),
            *final(final(self).builder) == *final(old(self).builder),
            *final(final(self).block) == *final(old(self).block),
    {
        self.named(Opcode::FPExt, two(value.as_raw(), dest_ty.as_raw()), name)
    }

    /// Appends the conversion from floating point to unsigned integer of `value` to `dest_ty`.
    pub fn fp_to_ui<'n>(
        &mut self,
        value: &Value<'_, 'id>,
        dest_ty: &Type<'_, 'id>,
        name: NulStr<'n>,
    ) -> (pending: Pending<'n, Value<'fid, 'id>>)
        requires
            old(self).positioned(),
            old(self).admits(*value),
            old(self).admits_type(*dest_ty),
        ensures
            old(self).appends(*final(self), Opcode::FPToUI),
            old(self).answers(
                pending,
                Opcode::FPToUI,
                seq![value.raw(), dest_ty.raw()],
                seq![name.bytes()],
            ),
            *final(final(self).builder) == *final(old(self).builder),
            *final(final(self).block) == *final(old(self).block),
    {
        self.named(Opcode::FPToUI, two(value.as_raw(), dest_ty.as_raw()), name)
    }

    /// Appends the conversion from floating point to signed integer of `value` to `dest_ty`.
    pub fn fp_to_si<'n>(
        &mut self,
        value: &Value<'_, 'id>,
        dest_ty: &Type<'_, 'id>,
        name: NulStr<'n>,
    ) -> (pending: Pending<'n, Value<'fid, 'id>>)
        requires
            old(self).positioned(),
            old(self).admits(*value),
            old(self).admits_type(*dest_ty),
        ensures
            old(self).appends(*final(self), Opcode::FPToSI),
            old(self).answers(
                pending,
                Opcode::FPToSI,
                seq![value.raw(), dest_ty.raw()],
                seq![name.bytes()],
            ),
            *final(final(self).builder) == *final(old(self).builder),
            *final(final(self).block) == *final(old(self).block),
    {
        self.named(Opcode::FPToSI, two(value.as_raw(), dest_ty.as_raw()), name)
    }

    /// Appends the conversion from unsigned integer to floating point of `value` to `dest_ty`.
    pub fn ui_to_fp<'n>(
        &mut self,
        value: &Value<'_, 'id>,
        dest_ty: &Type<'_, 'id>,
        name: NulStr<'n>,
    ) -> (pending: Pending<'n, Value<'fid, 'id>>)
        requires
            old(self).positioned(),
            old(self).admits(*value),
            old(self).admits_type(*dest_ty),
        ensures
            old(self).appends(*final(self), Opcode::UIToFP),
            old(self).answers(
                pending,
                Opcode::UIToFP,
                seq![value.raw(), dest_ty.raw()],
                seq![name.bytes()],
            ),
            *final(final(self).builder) == *final(old(self).builder),
            *final(final(self).block) == *final(old(self).block),
    {
        self.named(Opcode::UIToFP, two(value.as_raw(), dest_ty.as_raw()), name)
    }

    /// Appends the conversion from signed integer to floating point of `value` to `dest_ty`.
    pub fn si_to_fp<'n>(
        &mut self,
        value: &Value<'_, 'id>,
        dest_ty: &Type<'_, 'id>,
        name: NulStr<'n>,
    ) -> (pending: Pending<'n, Value<'fid, 'id>>)
        requires
            old(self).positioned(),
            old(self).admits(*value),
            old(self).admits_type(*dest_ty),
        ensures
            old(self).appends(*final(self), Opcode::SIToFP),
            old(self).answers(
                pending,
                Opcode::SIToFP,
                seq![value.raw(), dest_ty.raw()],
                seq![name.bytes()],
            ),
            *final(final(self).builder) == *final(old(self).builder),
            *final(final(self).block) == *final(old(self).block),
    {
        self.named(Opcode::SIToFP, two(value.as_raw(), dest_ty.as_raw()), name)
    }

    /// Appends the allocation of one `ty` on the stack.
    pub fn alloca<'n>(&mut self, ty: &Type<'_, 'id>, name: NulStr<'n>) -> (pending: Pending<
        'n,
        Value<'fid, 'id>,
    >)
        requires
            old(self).positioned(),
            old(self).admits_type(*ty),
        ensures
            old(self).appends(*final(self), Opcode::Alloca),
            old(self).answers(pending, Opcode::Alloca, seq![ty.raw()], seq![name.bytes()]),
            *final(final(self).builder) == *final(old(self).builder),
            *final(final(self).block) == *final(old(self).block),
    {
        self.named(Opcode::Alloca, one(ty.as_raw()), name)
    }

    /// Appends the allocation of `len` times `ty` on the stack.
    pub fn array_alloca<'n>(
        &mut self,
        ty: &Type<'_, 'id>,
        len: &Value<'_, 'id>,
        name: NulStr<'n>,
    ) -> (pending: Pending<'n, Value<'fid, 'id>>)
        requires
            old(self).positioned(),
            old(self).admits_type(*ty),
            old(self).admits(*len),
        ensures
            old(self).appends(*final(self), Opcode::ArrayAlloca),
            old(self).answers(
                pending,
                Opcode::ArrayAlloca,
                seq![ty.raw(), len.raw()],
                seq![name.bytes()],
            ),
            *final(final(self).builder) == *final(old(self).builder),
            *final(final(self).block) == *final(old(self).block),
    {
        self.named(Opcode::ArrayAlloca, two(ty.as_raw(), len.as_raw()), name)
    }

    /// Appends a load from `ptr`.
    pub fn load<'n>(&mut self, ptr: &Value<'_, 'id>, name: NulStr<'n>) -> (pending: Pending<
        'n,
        Value<'fid, 'id>,
    >)
        requires
            old(self).positioned(),
            old(self).admits(*ptr),
        ensures
            old(self).appends(*final(self), Opcode::Load),
            old(self).answers(pending, Opcode::Load, seq![ptr.raw()], seq![name.bytes()]),
            *final(final(self).builder) == *final(old(self).builder),
            *final(final(self).block) == *final(old(self).block),
    {
        self.named(Opcode::Load, one(ptr.as_raw()), name)
    }

    /// Appends a store of `value` to `ptr`: the value first, then the address.
    /// The result is the store itself.
    pub fn store(&mut self, value: &Value<'_, 'id>, ptr: &Value<'_, 'id>) -> (pending: Pending<
        'static,
        Value<'fid, 'id>,
    >)
        requires
            old(self).positioned(),
            old(self).admits(*value),
            old(self).admits(*ptr),
        ensures
            old(self).appends(*final(self), Opcode::Store),
            old(self).answers(
                pending,
                Opcode::Store,
                seq![value.raw(), ptr.raw()],
                Seq::empty(),
            ),
            *final(final(self).builder) == *final(old(self).builder),
            *final(final(self).block) == *final(old(self).block),
    {
        self.unnamed(Opcode::Store, two(value.as_raw(), ptr.as_raw()))
    }

    /// Appends a phi node of type `ty`. Its edges are added to the node once
    /// the node is there.
    pub fn phi<'n>(&mut self, ty: &Type<'_, 'id>, name: NulStr<'n>) -> (pending: Pending<
        'n,
        Phi<'fid, 'id>,
    >)
        requires
            old(self).positioned(),
            old(self).admits_type(*ty),
        ensures
            old(self).appends(*final(self), Opcode::Phi),
            pending.request() == (CallView {
                function: Native::Build(Opcode::Phi),
                handles: seq![old(self).raw(), ty.raw()],
                texts: seq![name.bytes()],
            }),
            no_null(pending.request().handles),
            pending.brand()@ == old(self).scope(),
            *final(final(self).builder) == *final(old(self).builder),
            *final(final(self).block) == *final(old(self).block),
    {
        let handles = self.append(Opcode::Phi, one(ty.as_raw()));
        assert(handles@ =~= seq![old(self).raw(), ty.raw()]);
        Pending {
            call: Call::with_text(Native::Build(Opcode::Phi), handles, name.as_bytes_with_nul()),
            brand: self.block.label.scope,
        }
    }

    /// Appends a call of `func` with `args`. The backend counts arguments in 32
    /// bits: with more arguments than that nothing is appended, and the answer
    /// is `None`.
    pub fn call<'n>(
        &mut self,
        func: &FunctionLabel<'_, 'id>,
        args: &[&Value<'_, 'id>],
        name: NulStr<'n>,
    ) -> (pending: Option<Pending<'n, Value<'fid, 'id>>>)
        requires
            old(self).positioned(),
            old(self).admits_callee(*func),
            old(self).admits_all(args@),
        ensures
            pending is Some <==> args@.len() <= u32::MAX,
            pending is Some ==> {
                &&& old(self).appends(*final(self), Opcode::Call)
                &&& old(self).answers(
                    pending.unwrap(),
                    Opcode::Call,
                    seq![func.raw()] + Self::handles_of(args@),
                    seq![name.bytes()],
                )
            },
            pending is None ==> *final(self).builder == *old(self).builder && *final(self).block
                == *old(self).block,
            *final(final(self).builder) == *final(old(self).builder),
            *final(final(self).block) == *final(old(self).block),
    {
        let count: usize = args.len();
        if count > u32::MAX as usize {
            return None;
        }
        let mut operands: Vec<usize> = Vec::new();
        operands.push(func.as_raw());
        let mut i: usize = 0;
        while i < count
            invariant
                i <= count,
                count == args@.len(),
                operands@.len() == i + 1,
                operands@[0] == func.raw(),
                forall|j: int| 0 <= j < i ==> operands@[j + 1] == args@[j].raw(),
                no_null(operands@),
            decreases count - i,
        {
            operands.push(args[i].as_raw());
            i = i + 1;
        }
        assert(operands@ =~= seq![func.raw()] + Self::handles_of(args@));
        Some(self.named(Opcode::Call, operands, name))
    }

    /// Appends a return of `value`. The result is the return itself.
    pub fn ret(&mut self, value: &Value<'_, 'id>) -> (pending: Pending<'static, Value<'fid, 'id>>)
        requires
            old(self).positioned(),
            old(self).admits(*value),
        ensures
            old(self).appends(*final(self), Opcode::Ret),
            old(self).answers(pending, Opcode::Ret, seq![value.raw()], Seq::empty()),
            *final(final(self).builder) == *final(old(self).builder),
            *final(final(self).block) == *final(old(self).block),
    {
        self.unnamed(Opcode::Ret, one(value.as_raw()))
    }

    /// Appends a return without a value. The result is the return itself.
    pub fn ret_void(&mut self) -> (pending: Pending<'static, Value<'fid, 'id>>)
        requires
            old(self).positioned(),
        ensures
            old(self).appends(*final(self), Opcode::RetVoid),
            old(self).answers(pending, Opcode::RetVoid, Seq::empty(), Seq::empty()),
            *final(final(self).builder) == *final(old(self).builder),
            *final(final(self).block) == *final(old(self).block),
    {
        self.unnamed(Opcode::RetVoid, Vec::new())
    }

    /// Moves the builder to the end of `block`, a block of the function that
    /// the builder stands in. The block that it leaves is as the builder left
    /// it, and every value that the builder admitted before is admitted still.
    pub fn position_at_end(&mut self, block: &'p mut BasicBlock<'fid, 'id>) -> (call: Call<'static>)
        requires
            block.scope() == old(self).scope(),
        ensures
            call@ == (CallView {
                function: Native::PositionBuilderAtEnd,
                handles: seq![old(self).raw(), old(block).raw()],
                texts: Seq::empty(),
            }),
            no_null(call@.handles),
            *final(self).builder == old(self).builder.put(old(block).raw()),
            *final(self).block == *old(block),
            *final(final(self).builder) == *final(old(self).builder),
            *final(final(self).block) == *final(block),
            *final(old(self).block) == *old(self).block,
            old(self).positioned() ==> final(self).positioned(),
            forall|value: Value<'_, '_>| old(self).admits(value) ==> final(self).admits(value),
    {
        let at: usize = block.as_raw();
        let call = Call::plain(Native::PositionBuilderAtEnd, two(self.builder.as_raw(), at));
        self.builder.at = at;
        self.block = block;
        call
    }

    /// Whether the builder was put on the block it holds: whether it may emit.
    pub fn is_positioned(&self) -> (positioned: bool)
        ensures
            positioned == self.positioned(),
    {
        self.builder.at == self.block.label.raw && self.builder.context.same(
            &self.block.label.scope.context,
        )
    }

    /// Whether `value` may be an operand here.
    pub fn accepts(&self, value: &Value<'_, 'id>) -> (accepted: bool)
        ensures
            accepted == self.admits(*value),
    {
        self.block.label.scope.same(&value.scope)
    }

    /// Whether `ty` may be used here.
    pub fn accepts_type(&self, ty: &Type<'_, 'id>) -> (accepted: bool)
        ensures
            accepted == self.admits_type(*ty),
    {
        self.block.label.scope.context.same(&ty.context)
    }

    /// Whether `label` may be branched to from here.
    pub fn accepts_label(&self, label: &Label<'_, 'id>) -> (accepted: bool)
        ensures
            accepted == self.admits_label(*label),
    {
        self.block.label.scope.same(&label.scope)
    }

    /// Whether `callee` may be called from here.
    pub fn accepts_callee(&self, callee: &FunctionLabel<'_, 'id>) -> (accepted: bool)
        ensures
            accepted == self.admits_callee(*callee),
    {
        self.block.label.scope.context.same(&callee.context) && self.block.label.scope.module.same(
            &callee.module,
        )
    }

    /// The handle of the builder, as the backend gave it. It is never null.
    pub fn as_raw(&self) -> (raw: usize)
        ensures
            raw == self.raw(),
            raw != 0,
    {
        self.builder.as_raw()
    }
}

} // verus!
