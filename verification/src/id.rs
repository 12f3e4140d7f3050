//! Scope identities.
//!
//! An [`IdentitySource`] mints identities, and [`with_source`] is the only way
//! to one. Every source has a brand of its own, the lifetime `'id`, which its
//! identities and everything made with them carry. The brand cannot be
//! widened or swapped, so what comes of two sources never meets: an operation
//! takes operands of one brand, and the compiler refuses the rest.
//!
//! An [`Identity`] is minted once, belongs to one scope (a context, a module or
//! a function) and cannot be copied. An [`IdentityRef`] borrows it: it can be
//! copied freely, and it cannot outlive the identity it points to. Two handles
//! of one brand belong to the same scope exactly if their references carry the
//! same token.

use vstd::prelude::*;
use core::marker::PhantomData;

verus! {

/// The only producer of identities of the brand `'id`. Tokens are handed out
/// in increasing order, so no token is ever handed out twice by one source.
/// Another source has another brand, and its tokens are never compared with
/// these.
#[derive(Debug)]
pub struct IdentitySource<'id> {
    next: u64,
    brand: PhantomData<&'id mut &'id ()>,
}

/// The identity of one scope. It has no public constructor and is neither
/// `Clone` nor `Copy`: a scope that holds one holds the only one.
#[derive(Debug)]
pub struct Identity<'id> {
    token: u64,
    brand: PhantomData<&'id mut &'id ()>,
}

/// A copyable witness that a handle belongs to the scope of an [`Identity`].
#[derive(Clone, Copy, Debug)]
pub struct IdentityRef<'a, 'id> {
    identity: &'a Identity<'id>,
}

/// `after` is `before` once it has minted `identity`.
pub open spec fn mints(
    before: IdentitySource<'_>,
    after: IdentitySource<'_>,
    identity: Identity<'_>,
) -> bool {
    &&& before.minted() < u64::MAX
    &&& identity.token() == before.minted()
    &&& after.minted() == before.minted() + 1
}

/// Runs `body` with a source of its own, which has minted nothing yet. This is
/// the only way to a source. The brand `'id` of the source is unlike the
/// brand of every other source, and `body` must work for whatever brand it is
/// given, so nothing that carries the brand outlives `body` or meets what
/// carries another brand.
pub fn with_source<R, F: for<'id> FnOnce(IdentitySource<'id>) -> R>(body: F) -> (result: R)
    requires
        forall|source: IdentitySource<'_>|
            source.minted() == 0 ==> #[trigger] call_requires(body, (source,)),
    ensures
        exists|source: IdentitySource<'_>|
            source.minted() == 0 && #[trigger] call_ensures(body, (source,), result),
{
    let source = IdentitySource { next: 0, brand: PhantomData };
    let ghost fresh = source;
    let result = body(source);
    assert(fresh.minted() == 0 && call_ensures(body, (fresh,), result));
    result
}

impl<'id> IdentitySource<'id> {
    /// How many identities the source has minted. Every token below this number
    /// is taken, every other token is still free.
    pub closed spec fn minted(&self) -> nat {
        self.next as nat
    }

    /// Mints an identity that differs from every identity this source has
    /// minted before. Returns `None`, and leaves the source as it is, only once
    /// all `u64::MAX` tokens are used up.
    pub fn fresh_identity(&mut self) -> (minted: Option<Identity<'id>>)
        ensures
            old(self).minted() < u64::MAX ==> minted is Some && mints(
                *old(self),
                *final(self),
                minted.unwrap(),
            ),
            old(self).minted() >= u64::MAX ==> minted is None && *final(self) == *old(self),
    {
        if self.next < u64::MAX {
            let token: u64 = self.next;
            self.next = token + 1;
            Some(Identity { token, brand: PhantomData })
        } else {
            None
        }
    }

    /// Whether the source can still mint.
    pub fn is_exhausted(&self) -> (exhausted: bool)
        ensures
            exhausted == (self.minted() >= u64::MAX),
    {
        self.next >= u64::MAX
    }
}

impl<'id> Identity<'id> {
    /// The token that tells this identity from every other one.
    pub closed spec fn token(&self) -> u64 {
        self.token
    }

    /// A witness of this identity, valid for as long as the identity is borrowed.
    pub fn borrow(&self) -> (witness: IdentityRef<'_, 'id>)
        ensures
            witness.token() == self.token(),
    {
        IdentityRef { identity: self }
    }

    /// The token as a number, for diagnostics.
    pub fn as_u64(&self) -> (token: u64)
        ensures
            token == self.token(),
    {
        self.token
    }
}

impl<'a, 'id> IdentityRef<'a, 'id> {
    /// The token of the identity that this witness points to.
    pub closed spec fn token(&self) -> u64 {
        self.identity.token
    }

    /// Whether two witnesses stand for the same scope.
    pub fn same(&self, other: &IdentityRef<'_, 'id>) -> (same: bool)
        ensures
            same == (self.token() == other.token()),
    {
        self.identity.token == other.identity.token
    }

    /// The token as a number, for diagnostics.
    pub fn as_u64(&self) -> (token: u64)
        ensures
            token == self.token(),
    {
        self.identity.token
    }
}

/// An identity differs from every identity that the same source mints later.
pub proof fn lemma_identities_differ(
    before_first: IdentitySource<'_>,
    after_first: IdentitySource<'_>,
    before_second: IdentitySource<'_>,
    after_second: IdentitySource<'_>,
    first: Identity<'_>,
    second: Identity<'_>,
)
    requires
        mints(before_first, after_first, first),
        after_first.minted() <= before_second.minted(),
        mints(before_second, after_second, second),
    ensures
        first.token() != second.token(),
{
}

} // verus!
