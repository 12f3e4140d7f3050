//! Text for the backend.
//!
//! The backend reads every name, triple and path as a C string: it stops at
//! the first zero byte. A [`NulStr`] is a borrowed byte string that ends in its
//! only zero byte, so what the backend reads is what the caller wrote.

use vstd::prelude::*;

verus! {

/// Why a byte string is no C string.
#[derive(Clone, Copy, Debug, PartialEq, Eq)]
pub enum NulError {
    /// A zero byte stands at `position`, before the last byte.
    InteriorNul { position: usize },
    /// The bytes hold no zero byte at all.
    NotNulTerminated,
}

/// A borrowed byte string whose last byte is its only zero byte.
#[derive(Clone, Copy, Debug)]
pub struct NulStr<'a> {
    bytes: &'a [u8],
}

/// No byte of `bytes` before `end` is zero.
pub open spec fn nul_free(bytes: Seq<u8>, end: int) -> bool {
    forall|i: int| 0 <= i < end && i < bytes.len() ==> bytes[i] != 0
}

/// `bytes` ends in its only zero byte.
pub open spec fn nul_terminated(bytes: Seq<u8>) -> bool {
    &&& bytes.len() > 0
    &&& bytes[bytes.len() - 1] == 0
    &&& nul_free(bytes, bytes.len() - 1)
}

impl<'a> NulStr<'a> {
    /// The bytes, the closing zero byte among them.
    pub closed spec fn bytes(&self) -> Seq<u8> {
        self.bytes@
    }

    #[verifier::type_invariant]
    spec fn well_formed(&self) -> bool {
        nul_terminated(self.bytes@)
    }

    /// Takes `bytes` as a C string if the first zero byte in it is the last
    /// byte. Otherwise says where the first zero byte stands, or that there is
    /// none.
    pub fn from_bytes_with_nul(bytes: &'a [u8]) -> (text: Result<NulStr<'a>, NulError>)
        ensures
            text is Ok <==> nul_terminated(bytes@),
            match text {
                Ok(text) => nul_terminated(bytes@) && text.bytes() == bytes@,
                Err(NulError::InteriorNul { position }) => {
                    &&& position + 1 < bytes@.len()
                    &&& bytes@[position as int] == 0
                    &&& nul_free(bytes@, position as int)
                },
                Err(NulError::NotNulTerminated) => nul_free(bytes@, bytes@.len() as int),
            },
    {
        let len: usize = bytes.len();
        let mut i: usize = 0;
        while i < len
            invariant
                i <= len,
                len == bytes@.len(),
                nul_free(bytes@, i as int),
            decreases len - i,
        {
            if bytes[i] == 0 {
                if i + 1 == len {
                    return Ok(NulStr { bytes });
                } else {
                    return Err(NulError::InteriorNul { position: i });
                }
            }
            i = i + 1;
        }
        Err(NulError::NotNulTerminated)
    }

    /// The bytes that the backend is to read, the closing zero byte among them.
    pub fn as_bytes_with_nul(&self) -> (bytes: &'a [u8])
        ensures
            bytes@ == self.bytes(),
            nul_terminated(bytes@),
    {
        proof {
            use_type_invariant(self);
        }
        self.bytes
    }

    /// How many bytes stand before the closing zero byte.
    pub fn len(&self) -> (len: usize)
        ensures
            len == self.bytes().len() - 1,
    {
        proof {
            use_type_invariant(self);
        }
        self.bytes.len() - 1
    }

    /// Whether the text is empty.
    pub fn is_empty(&self) -> (empty: bool)
        ensures
            empty == (self.bytes().len() == 1),
    {
        proof {
            use_type_invariant(self);
        }
        self.bytes.len() == 1
    }
}

} // verus!
