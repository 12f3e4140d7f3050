//! What holds of the scopes of one source, whatever is built.
//!
//! Each law is stated over the functions that the contracts of the crate are
//! stated over, and speaks of tokens, which tell the scopes of one source
//! apart. What comes of two sources is kept apart before that, by the brand in
//! its type: it cannot be handed to one operation.

use vstd::prelude::*;
use crate::block::BasicBlock;
use crate::builder::PositionedBuilder;
use crate::call::Pending;
use crate::context::Context;
use crate::function::Function;
use crate::id::{mints, Identity, IdentitySource};
use crate::native::Opcode;
use crate::value::Value;

verus! {

/// A value that comes out of a positioned builder carries the scope of the
/// function whose block the builder stands on, and the builder admits it as an
/// operand from then on.
///
/// The block was asked of `function`; the builder stands on it; `pending` is
/// what the builder answered when it appended `opcode`; the backend answered
/// with `raw`, which made `value`.
pub proof fn lemma_value_carries_function_scope(
    function: Function<'_, '_>,
    block_asked: Pending<'_, BasicBlock<'_, '_>>,
    positioned: PositionedBuilder<'_, '_, '_, '_>,
    pending: Pending<'_, Value<'_, '_>>,
    opcode: Opcode,
    operands: Seq<usize>,
    texts: Seq<Seq<u8>>,
    raw: usize,
    value: Value<'_, '_>,
)
    requires
        block_asked.brand()@ == function.scope(),
        positioned.scope() == block_asked.brand()@,
        positioned.answers(pending, opcode, operands, texts),
        value.scope() == pending.brand()@,
        value.raw() == raw,
    ensures
        value.scope() == function.scope(),
        positioned.admits(value),
{
}

/// A builder admits no value of another function, and no value of another
/// context.
pub proof fn lemma_value_refused_elsewhere(
    positioned: PositionedBuilder<'_, '_, '_, '_>,
    value: Value<'_, '_>,
)
    requires
        value.scope().function != positioned.scope().function || value.scope().context
            != positioned.scope().context,
    ensures
        !positioned.admits(value),
{
}

/// Two contexts whose identities one source minted, one after the other, are
/// different scopes (contexts of two sources cannot meet at all): a builder
/// that stands in the second admits no value of the first, and a builder that
/// stands in the first admits no value of the second.
pub proof fn lemma_contexts_stay_apart(
    before_first: IdentitySource<'_>,
    after_first: IdentitySource<'_>,
    before_second: IdentitySource<'_>,
    after_second: IdentitySource<'_>,
    first_identity: Identity<'_>,
    second_identity: Identity<'_>,
    first: Context<'_>,
    second: Context<'_>,
    in_first: PositionedBuilder<'_, '_, '_, '_>,
    in_second: PositionedBuilder<'_, '_, '_, '_>,
    of_first: Value<'_, '_>,
    of_second: Value<'_, '_>,
)
    requires
        mints(before_first, after_first, first_identity),
        after_first.minted() <= before_second.minted(),
        mints(before_second, after_second, second_identity),
        first.id() == first_identity.token(),
        second.id() == second_identity.token(),
        in_first.scope().context == first.id(),
        in_second.scope().context == second.id(),
        of_first.scope().context == first.id(),
        of_second.scope().context == second.id(),
    ensures
        first.id() != second.id(),
        !in_second.admits(of_first),
        !in_first.admits(of_second),
{
}

/// Appending an instruction changes nothing about which values the builder
/// admits, and leaves the builder positioned.
pub proof fn lemma_appending_keeps_values(
    before: PositionedBuilder<'_, '_, '_, '_>,
    after: PositionedBuilder<'_, '_, '_, '_>,
    opcode: Opcode,
    value: Value<'_, '_>,
)
    requires
        before.appends(after, opcode),
    ensures
        before.admits(value) == after.admits(value),
        before.positioned() ==> after.positioned(),
        after.record().len() == before.record().len() + 1,
        after.record().last() == opcode,
{
}

/// Moving a builder to another block of the same function changes nothing
/// about which values it admits: what was made on the first block is an
/// operand on the second.
pub proof fn lemma_repositioning_keeps_values(
    before: PositionedBuilder<'_, '_, '_, '_>,
    after: PositionedBuilder<'_, '_, '_, '_>,
    block: BasicBlock<'_, '_>,
    value: Value<'_, '_>,
)
    requires
        block.scope() == before.scope(),
        *after.block == block,
    ensures
        before.admits(value) == after.admits(value),
{
}

} // verus!
