//! Native calls as values, and results that wait for their handle.

use vstd::prelude::*;
use crate::native::Native;

verus! {

/// One call into the backend: the entry point, the handles it takes and the
/// texts it takes. The texts are borrowed for as long as the call exists.
#[derive(Debug, PartialEq)]
#[must_use]
pub struct Call<'n> {
    pub function: Native,
    pub handles: Vec<usize>,
    pub texts: Vec<&'n [u8]>,
}

/// What a [`Call`] says, as mathematics.
pub struct CallView {
    pub function: Native,
    pub handles: Seq<usize>,
    pub texts: Seq<Seq<u8>>,
}

impl<'n> Call<'n> {
    /// The call with its handles and texts as sequences.
    pub open spec fn view(&self) -> CallView {
        CallView {
            function: self.function,
            handles: self.handles@,
            texts: Seq::new(self.texts@.len(), |i: int| self.texts@[i]@),
        }
    }

    /// A call that takes handles only.
    pub fn plain(function: Native, handles: Vec<usize>) -> (call: Call<'n>)
        ensures
            call@ == (CallView { function, handles: handles@, texts: Seq::empty() }),
    {
        let call = Call { function, handles, texts: Vec::new() };
        assert(call@.texts =~= Seq::empty());
        call
    }

    /// A call that takes one text.
    pub fn with_text(function: Native, handles: Vec<usize>, text: &'n [u8]) -> (call: Call<'n>)
        ensures
            call@ == (CallView { function, handles: handles@, texts: seq![text@] }),
    {
        let call = Call { function, handles, texts: vec![text] };
        assert(call@.texts =~= seq![text@]);
        call
    }

    /// A call that takes three texts.
    pub fn with_texts(
        function: Native,
        handles: Vec<usize>,
        first: &'n [u8],
        second: &'n [u8],
        third: &'n [u8],
    ) -> (call: Call<'n>)
        ensures
            call@ == (CallView {
                function,
                handles: handles@,
                texts: seq![first@, second@, third@],
            }),
    {
        let call = Call { function, handles, texts: vec![first, second, third] };
        assert(call@.texts =~= seq![first@, second@, third@]);
        call
    }
}

/// One handle, as the handles of a call.
pub(crate) fn one(a: usize) -> (handles: Vec<usize>)
    ensures
        handles@ == seq![a],
{
    let handles = vec![a];
    assert(handles@ =~= seq![a]);
    handles
}

/// Two handles, as the handles of a call.
pub(crate) fn two(a: usize, b: usize) -> (handles: Vec<usize>)
    ensures
        handles@ == seq![a, b],
{
    let handles = vec![a, b];
    assert(handles@ =~= seq![a, b]);
    handles
}

/// Three handles, as the handles of a call.
pub(crate) fn three(a: usize, b: usize, c: usize) -> (handles: Vec<usize>)
    ensures
        handles@ == seq![a, b, c],
{
    let handles = vec![a, b, c];
    assert(handles@ =~= seq![a, b, c]);
    handles
}

/// No handle in `handles` is null.
pub open spec fn no_null(handles: Seq<usize>) -> bool {
    forall|i: int| 0 <= i < handles.len() ==> handles[i] != 0
}

/// What can be the result of a call: a handle of the backend, with the brand
/// that says where the handle belongs.
pub trait Branded {
    /// What a value of the type carries besides its handle.
    type Brand;
}

/// A result that the backend has not produced yet: the call that produces it,
/// and the brand that the result will carry. Each kind of result has its own
/// `complete`, which takes what the backend answered and makes the result.
#[must_use]
pub struct Pending<'n, T: Branded> {
    pub(crate) call: Call<'n>,
    pub(crate) brand: T::Brand,
}

impl<'n, T: Branded> Pending<'n, T> {
    /// The call to perform.
    pub open(crate) spec fn request(&self) -> CallView {
        self.call@
    }

    /// The brand that the result will carry.
    pub open(crate) spec fn brand(&self) -> T::Brand {
        self.brand
    }

    /// The call to perform.
    pub fn call(&self) -> (call: &Call<'n>)
        ensures
            call@ == self.request(),
    {
        &self.call
    }
}

impl Branded for () {
    type Brand = ();
}

} // verus!
