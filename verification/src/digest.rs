//! Content digests of program images.
//!
//! A digest is the deterministic content hash of a full program image; equal
//! state gives an equal digest, and the digest is the entire trust anchor of
//! the chain-continuity invariant. The library never computes a digest itself:
//! it receives digests from the proving backend and only stores, serializes
//! and compares them.

use vstd::prelude::*;

use crate::errors::RunError;

verus! {

/// The length in bytes of a program-image digest.
pub const DIGEST_BYTES: usize = 32;

/// The content digest of a program image: exactly [`DIGEST_BYTES`] raw bytes.
#[derive(Debug)]
pub struct ImageDigest {
    /// The raw digest bytes.
    pub bytes: Vec<u8>,
}

impl View for ImageDigest {
    type V = Seq<u8>;

    open spec fn view(&self) -> Seq<u8> {
        self.bytes@
    }
}

impl ImageDigest {
    /// A digest is well formed when it holds exactly [`DIGEST_BYTES`] bytes.
    pub open spec fn wf(&self) -> bool {
        self@.len() == DIGEST_BYTES
    }

    /// Wraps raw bytes as a digest; rejects any length other than
    /// [`DIGEST_BYTES`].
    pub fn new(bytes: Vec<u8>) -> (r: Result<ImageDigest, RunError>)
        ensures
            r is Ok <==> bytes@.len() == DIGEST_BYTES,
            r matches Ok(d) ==> d@ == bytes@ && d.wf(),
            r is Err ==> r == Err::<ImageDigest, RunError>(RunError::InputError),
    {
        if bytes.len() == DIGEST_BYTES {
            Ok(ImageDigest { bytes })
        } else {
            Err(RunError::InputError)
        }
    }

    /// The number of bytes held.
    pub fn len(&self) -> (r: usize)
        ensures
            r == self@.len(),
    {
        self.bytes.len()
    }

    /// Byte-for-byte equality of two digests.
    pub fn matches(&self, other: &ImageDigest) -> (r: bool)
        ensures
            r == (self@ == other@),
    {
        if self.bytes.len() != other.bytes.len() {
            assert(self@.len() != other@.len());
            return false;
        }
        let n: usize = self.bytes.len();
        for i in 0..n
            invariant
                n == self@.len(),
                n == other@.len(),
                forall|j: int| 0 <= j < i ==> self@[j] == other@[j],
        {
            if self.bytes[i] != other.bytes[i] {
                return false;
            }
        }
        assert(self@ =~= other@);
        true
    }

    /// An independent copy with the same bytes.
    pub fn duplicate(&self) -> (r: ImageDigest)
        ensures
            r@ == self@,
    {
        let n: usize = self.bytes.len();
        let mut out: Vec<u8> = Vec::new();
        for i in 0..n
            invariant
                n == self@.len(),
                out@ == self@.subrange(0, i as int),
        {
            out.push(self.bytes[i]);
            assert(out@ =~= self@.subrange(0, (i + 1) as int));
        }
        assert(out@ =~= self@);
        ImageDigest { bytes: out }
    }
}

} // verus!
