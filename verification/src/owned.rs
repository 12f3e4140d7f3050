//! Unique ownership of a resource of the backend.
//!
//! A resource is released by one call into the backend, after which its
//! handle is worth nothing. [`DropInPlace`] is the release operation of one
//! kind of resource: it consumes the resource and returns that call.
//! [`Owned`] holds one resource, lends it out, and is the only way to release
//! what this crate creates. An `Owned` cannot be copied and releasing
//! consumes it, so the release call of a resource is handed out at most once.
//! It is handed out where the owner is released, by `release` or at the end of
//! `scoped`; an owner that is dropped hands out nothing.

use vstd::prelude::*;
use crate::call::{Call, CallView};
use crate::native::Native;

verus! {

/// The call that releases the resource behind `handle`.
pub open spec fn dispose(function: Native, handle: usize) -> CallView {
    CallView { function, handles: seq![handle], texts: Seq::empty() }
}

/// The release operation of one kind of resource.
pub trait DropInPlace: Sized {
    /// The handle that the value holds.
    spec fn held(&self) -> usize;

    /// The entry point of the backend that releases this kind of resource.
    spec fn releaser(&self) -> Native;

    /// Gives the resource up and returns the one call that releases it. The
    /// value is gone afterwards, and its handle with it.
    fn drop_in_place(self) -> (call: Call<'static>)
        ensures
            call@ == dispose(self.releaser(), self.held()),
    ;
}

/// A resource and the duty to release it.
#[derive(Debug)]
#[must_use]
pub struct Owned<T: DropInPlace> {
    resource: T,
}

impl<T: DropInPlace> Owned<T> {
    /// The resource that is owned.
    pub closed spec fn view(&self) -> T {
        self.resource
    }

    /// Takes ownership of a resource whose handle is not null.
    pub fn from_raw(resource: T) -> (owned: Owned<T>)
        requires
            resource.held() != 0,
        ensures
            owned@ == resource,
    {
        Owned { resource }
    }

    /// The resource, for reading.
    pub fn borrow(&self) -> (resource: &T)
        ensures
            *resource == self@,
    {
        &self.resource
    }

    /// The resource, for use by operations that need it to themselves.
    pub fn borrow_mut(&mut self) -> (resource: &mut T)
        ensures
            *resource == old(self)@,
            final(self)@ == *final(resource),
    {
        &mut self.resource
    }

    /// Lends the resource to `body` and releases it when `body` is done:
    /// answers with what `body` returned and with the one call that releases
    /// the resource. Whichever way `body` returns, by its last expression, by
    /// an early `return` or with an error, the call comes out, once, and
    /// names the resource that was lent.
    pub fn scoped<R, F: FnOnce(&T) -> R>(self, body: F) -> (done: (R, Call<'static>))
        requires
            call_requires(body, (&self@,)),
        ensures
            call_ensures(body, (&self@,), done.0),
            done.1@ == dispose(self@.releaser(), self@.held()),
    {
        let result = body(&self.resource);
        (result, self.resource.drop_in_place())
    }

    /// Gives the resource up and returns the one call that releases it. The
    /// owner is gone afterwards: there is no second release.
    pub fn release(self) -> (call: Call<'static>)
        ensures
            call@ == dispose(self@.releaser(), self@.held()),
    {
        self.resource.drop_in_place()
    }
}

impl<T: DropInPlace> core::ops::Deref for Owned<T> {
    type Target = T;

    /// The resource, for reading.
    fn deref(&self) -> (resource: &T)
        ensures
            *resource == self@,
    {
        &self.resource
    }
}

/// An owner that took a resource releases that resource and no other: the call
/// that `release` hands out goes to the resource's own entry point, with the
/// handle that `from_raw` was given.
pub proof fn lemma_release_matches_acquisition<T: DropInPlace>(
    resource: T,
    owned: Owned<T>,
    call: Call<'static>,
)
    requires
        owned@ == resource,
        call@ == dispose(owned@.releaser(), owned@.held()),
    ensures
        call@.function == resource.releaser(),
        call@.handles == seq![resource.held()],
        call@.texts == Seq::<Seq<u8>>::empty(),
{
}

} // verus!
