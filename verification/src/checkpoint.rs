//! The checkpoint store's durable format.
//!
//! A checkpoint persists a program image between two runs: the image's opaque
//! blob together with its content digest. Both travel in a single buffer — a
//! one-byte digest length, the digest, then the blob — so a crash can never
//! leave the pair half written. Reading and writing the buffer itself is the
//! caller's concern; this module only frames and checks the bytes.

use vstd::prelude::*;

use crate::digest::{DIGEST_BYTES, ImageDigest};
use crate::errors::RunError;

verus! {

/// A program image as persisted by the checkpoint store: the opaque blob of
/// guest state and its content digest.
#[derive(Debug)]
pub struct CheckpointImage {
    /// The serialized guest state, opaque to this layer.
    pub blob: Vec<u8>,
    /// The content digest of the image the blob serializes.
    pub digest: ImageDigest,
}

impl CheckpointImage {
    /// A checkpoint is well formed when its digest is.
    pub open spec fn wf(&self) -> bool {
        self.digest.wf()
    }
}

/// The encoded form of a checkpoint: the digest length, the digest bytes,
/// then the blob.
pub open spec fn encode_spec(digest: Seq<u8>, blob: Seq<u8>) -> Seq<u8> {
    seq![DIGEST_BYTES as u8] + digest + blob
}

/// The decoded form of a buffer: the digest and blob it frames, or nothing
/// when the buffer is malformed.
pub open spec fn decode_spec(bytes: Seq<u8>) -> Option<(Seq<u8>, Seq<u8>)> {
    if bytes.len() >= 1 + DIGEST_BYTES && bytes[0] == DIGEST_BYTES as u8 {
        Some(
            (
                bytes.subrange(1, 1 + DIGEST_BYTES as int),
                bytes.subrange(1 + DIGEST_BYTES as int, bytes.len() as int),
            ),
        )
    } else {
        None
    }
}

/// Checkpoint round trip: decoding an encoded checkpoint yields back exactly
/// the digest and blob that were saved — in particular an image restored from
/// a checkpoint carries a digest identical to the saved image's.
pub proof fn lemma_checkpoint_roundtrip(digest: Seq<u8>, blob: Seq<u8>)
    requires
        digest.len() == DIGEST_BYTES,
    ensures
        decode_spec(encode_spec(digest, blob)) == Some((digest, blob)),
{
    let enc = encode_spec(digest, blob);
    assert(enc[0] == DIGEST_BYTES as u8);
    assert(enc.subrange(1, 1 + DIGEST_BYTES as int) =~= digest);
    assert(enc.subrange(1 + DIGEST_BYTES as int, enc.len() as int) =~= blob);
}

/// Frames a checkpoint into the single buffer the store writes.
pub fn encode_checkpoint(image: &CheckpointImage) -> (r: Vec<u8>)
    requires
        image.wf(),
        image.blob@.len() + DIGEST_BYTES + 1 <= usize::MAX,
    ensures
        r@ == encode_spec(image.digest@, image.blob@),
{
    let mut out: Vec<u8> = Vec::new();
    out.push(DIGEST_BYTES as u8);
    let dn: usize = image.digest.len();
    for i in 0..dn
        invariant
            dn == image.digest@.len(),
            out@ == seq![DIGEST_BYTES as u8] + image.digest@.subrange(0, i as int),
    {
        out.push(image.digest.bytes[i]);
        proof {
            assert(out@ =~= seq![DIGEST_BYTES as u8] + image.digest@.subrange(0, i as int + 1));
        }
    }
    proof {
        assert(out@ =~= seq![DIGEST_BYTES as u8] + image.digest@);
    }
    let bn: usize = image.blob.len();
    for i in 0..bn
        invariant
            bn == image.blob@.len(),
            out@ == seq![DIGEST_BYTES as u8] + image.digest@ + image.blob@.subrange(0, i as int),
    {
        out.push(image.blob[i]);
        proof {
            assert(out@ =~= seq![DIGEST_BYTES as u8] + image.digest@ + image.blob@.subrange(
                0,
                i as int + 1,
            ));
        }
    }
    proof {
        assert(out@ =~= encode_spec(image.digest@, image.blob@));
    }
    out
}

/// Whether a checkpoint is due: resumability was requested, at least one
/// batch has produced an image, and the run is not finished — the guest
/// paused after the batch, so the image it produced is worth persisting.
pub fn checkpoint_due(save_requested: bool, batches_done: usize, total_batches: usize) -> (r:
    bool)
    ensures
        r == (save_requested && 0 < batches_done && batches_done < total_batches),
{
    save_requested && 0 < batches_done && batches_done < total_batches
}

/// Reads a checkpoint back out of a buffer; fails with a checkpoint read
/// error exactly when the buffer does not frame one.
pub fn decode_checkpoint(bytes: &Vec<u8>) -> (r: Result<CheckpointImage, RunError>)
    ensures
        r is Ok <==> decode_spec(bytes@) is Some,
        r matches Ok(c) ==> {
            &&& c.wf()
            &&& decode_spec(bytes@) == Some((c.digest@, c.blob@))
        },
        r is Err ==> r == Err::<CheckpointImage, RunError>(RunError::CheckpointReadError),
{
    if bytes.len() < 1 + DIGEST_BYTES {
        return Err(RunError::CheckpointReadError);
    }
    if bytes[0] != DIGEST_BYTES as u8 {
        return Err(RunError::CheckpointReadError);
    }
    let mut digest_bytes: Vec<u8> = Vec::new();
    proof {
        assert(digest_bytes@ =~= bytes@.subrange(1, 1));
    }
    for i in 1..1 + DIGEST_BYTES
        invariant
            bytes@.len() >= 1 + DIGEST_BYTES,
            digest_bytes@ == bytes@.subrange(1, i as int),
    {
        digest_bytes.push(bytes[i]);
        proof {
            assert(digest_bytes@ =~= bytes@.subrange(1, i as int + 1));
        }
    }
    let n: usize = bytes.len();
    let mut blob: Vec<u8> = Vec::new();
    proof {
        assert(blob@ =~= bytes@.subrange(1 + DIGEST_BYTES as int, 1 + DIGEST_BYTES as int));
    }
    for i in 1 + DIGEST_BYTES..n
        invariant
            n == bytes@.len(),
            n >= 1 + DIGEST_BYTES,
            blob@ == bytes@.subrange(1 + DIGEST_BYTES as int, i as int),
    {
        blob.push(bytes[i]);
        proof {
            assert(blob@ =~= bytes@.subrange(1 + DIGEST_BYTES as int, i as int + 1));
        }
    }
    let digest = match ImageDigest::new(digest_bytes) {
        Ok(d) => d,
        Err(_) => {
            return Err(RunError::CheckpointReadError);
        },
    };
    Ok(CheckpointImage { blob, digest })
}

} // verus!
