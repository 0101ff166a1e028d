//! The chain verifier.
//!
//! Receipts arrive one per batch, in batch order, and are validated
//! incrementally: each receipt must pass its integrity self-check, report the
//! completion status its position demands, and claim as pre-image digest
//! exactly the digest the chain expects — the initial image's digest for the
//! first receipt, the previous receipt's claimed post-image digest after
//! that. Any failure is fatal: the verifier refuses the receipt and keeps
//! its state unchanged, so no partially verified chain can be extended.

use vstd::prelude::*;

use crate::digest::{DIGEST_BYTES, ImageDigest};
use crate::errors::RunError;
use crate::receipt::{ClaimView, ReceiptClaimInfo};

verus! {

/// Chain continuity: every claim's pre-image digest equals its predecessor's
/// post-image digest, and the first claim's equals the initial digest.
pub open spec fn chained(initial: Seq<u8>, h: Seq<ClaimView>) -> bool {
    forall|i: int|
        0 <= i < h.len() ==> (#[trigger] h[i]).pre == if i == 0 {
            initial
        } else {
            h[i - 1].post
        }
}

/// Completion-status ordering: a claim reports Finished exactly when it is
/// the claim of the last batch.
pub open spec fn statuses_ordered(h: Seq<ClaimView>, total: int) -> bool {
    forall|i: int| 0 <= i < h.len() ==> ((#[trigger] h[i]).finished <==> i == total - 1)
}

/// The digest the chain expects the next claim to name as its pre-image.
pub open spec fn expected_of(initial: Seq<u8>, h: Seq<ClaimView>) -> Seq<u8> {
    if h.len() == 0 {
        initial
    } else {
        h.last().post
    }
}

/// Whether a final claim passes stand-alone re-verification against an
/// expected digest, given the verdict of the backend's seal check.
pub open spec fn reverifies(c: ClaimView, d: Seq<u8>, seal_ok: bool) -> bool {
    seal_ok && c.pre == d && c.finished
}

/// Incremental verifier of a receipt chain.
pub struct ChainVerifier {
    expected: ImageDigest,
    prev_expected: ImageDigest,
    total_batches: usize,
    accepted: usize,
    initial: Ghost<Seq<u8>>,
    history: Ghost<Seq<ClaimView>>,
}

impl ChainVerifier {
    /// The digest of the initial loaded image the chain is anchored to.
    pub closed spec fn initial_digest(&self) -> Seq<u8> {
        self.initial@
    }

    /// The claims accepted so far, in batch order.
    pub closed spec fn history(&self) -> Seq<ClaimView> {
        self.history@
    }

    /// The number of batches the whole run will produce.
    pub closed spec fn total(&self) -> int {
        self.total_batches as int
    }

    /// The number of claims accepted so far.
    pub closed spec fn accepted_count(&self) -> int {
        self.accepted as int
    }

    /// The digest the next claim must name as its pre-image.
    pub closed spec fn expected_digest(&self) -> Seq<u8> {
        self.expected@
    }

    /// All batches have been accepted.
    pub closed spec fn complete(&self) -> bool {
        self.accepted_count() == self.total()
    }

    /// The verifier's invariant: counters agree with the accepted history,
    /// the history is chained and status-ordered, and the cached digests
    /// shadow the history.
    pub closed spec fn wf(&self) -> bool {
        &&& self.expected.wf()
        &&& self.prev_expected.wf()
        &&& 1 <= self.total_batches
        &&& self.accepted <= self.total_batches
        &&& self.history@.len() == self.accepted as int
        &&& self.initial@.len() == DIGEST_BYTES
        &&& chained(self.initial@, self.history@)
        &&& statuses_ordered(self.history@, self.total_batches as int)
        &&& self.expected@ == expected_of(self.initial@, self.history@)
        &&& self.prev_expected@ == if self.history@.len() == 0 {
            self.initial@
        } else {
            self.history@.last().pre
        }
    }

    /// Starts a chain at the digest of the initial loaded image, for a run
    /// of `total_batches` batches.
    pub fn new(initial: ImageDigest, total_batches: usize) -> (r: ChainVerifier)
        requires
            initial.wf(),
            1 <= total_batches,
        ensures
            r.wf(),
            r.initial_digest() == initial@,
            r.history() == Seq::<ClaimView>::empty(),
            r.total() == total_batches as int,
            r.accepted_count() == 0,
            r.expected_digest() == initial@,
    {
        let prev = initial.duplicate();
        let ghost iv = initial@;
        ChainVerifier {
            expected: initial,
            prev_expected: prev,
            total_batches,
            accepted: 0,
            initial: Ghost(iv),
            history: Ghost(Seq::empty()),
        }
    }

    /// Accepts or refuses the claim of the next batch's receipt.
    ///
    /// `integrity_ok` is the outcome of the receipt's cryptographic
    /// integrity self-check, performed outside this model. The claim is
    /// accepted exactly when that check passed, its completion status is the
    /// one its position demands, and its pre-image digest is the expected
    /// one; the checks are made in that order and the first to fail names
    /// the error. On refusal the verifier is unchanged.
    pub fn accept_claim(&mut self, claim: &ReceiptClaimInfo, integrity_ok: bool) -> (r: Result<
        (),
        RunError,
    >)
        requires
            old(self).wf(),
            claim.wf(),
            old(self).accepted_count() < old(self).total(),
        ensures
            final(self).wf(),
            r is Ok <==> integrity_ok && (claim@.finished <==> old(self).accepted_count() == old(
                self,
            ).total() - 1) && claim@.pre == old(self).expected_digest(),
            !integrity_ok ==> r == Err::<(), RunError>(RunError::ProofIntegrityError),
            integrity_ok && !(claim@.finished <==> old(self).accepted_count() == old(self).total()
                - 1) ==> r == Err::<(), RunError>(RunError::GuestExecutionError),
            integrity_ok && (claim@.finished <==> old(self).accepted_count() == old(self).total()
                - 1) && claim@.pre != old(self).expected_digest() ==> r == Err::<(), RunError>(
                RunError::ChainContinuityError,
            ),
            r is Ok ==> {
                &&& final(self).history() == old(self).history().push(claim@)
                &&& final(self).accepted_count() == old(self).accepted_count() + 1
                &&& final(self).expected_digest() == claim@.post
                &&& final(self).total() == old(self).total()
                &&& final(self).initial_digest() == old(self).initial_digest()
            },
            r is Err ==> *final(self) == *old(self),
    {
        if !integrity_ok {
            return Err(RunError::ProofIntegrityError);
        }
        let is_last = self.accepted == self.total_batches - 1;
        let finished = match claim.status {
            crate::receipt::CompletionStatus::Finished => true,
            crate::receipt::CompletionStatus::Continuing => false,
        };
        if finished != is_last {
            return Err(RunError::GuestExecutionError);
        }
        if !claim.pre_digest.matches(&self.expected) {
            return Err(RunError::ChainContinuityError);
        }
        self.prev_expected = claim.pre_digest.duplicate();
        self.expected = claim.post_digest.duplicate();
        self.accepted = self.accepted + 1;
        let ghost h = self.history@.push(claim@);
        proof {
            self.history@ = h;
            assert(self.history@.drop_last() =~= old(self).history@);
            assert(self.history@.last() == claim@);
        }
        Ok(())
    }

    /// What the invariant says of the accepted history: it is chained from
    /// the initial digest and its statuses are ordered by position.
    pub proof fn lemma_wf_history(&self)
        requires
            self.wf(),
        ensures
            chained(self.initial_digest(), self.history()),
            statuses_ordered(self.history(), self.total()),
            self.expected_digest() == expected_of(self.initial_digest(), self.history()),
    {
    }

    /// Bounds the invariant gives every holder of a sound verifier.
    pub proof fn lemma_wf_bounds(&self)
        requires
            self.wf(),
        ensures
            1 <= self.total(),
            0 <= self.accepted_count() <= self.total(),
            self.history().len() == self.accepted_count(),
            self.complete() <==> self.accepted_count() == self.total(),
    {
    }

    /// The number of claims accepted so far.
    pub fn batches_accepted(&self) -> (r: usize)
        ensures
            r as int == self.accepted_count(),
    {
        self.accepted
    }

    /// The number of batches the whole run will produce.
    pub fn batch_total(&self) -> (r: usize)
        ensures
            r as int == self.total(),
    {
        self.total_batches
    }

    /// Whether every batch's claim has been accepted.
    pub fn is_complete(&self) -> (r: bool)
        ensures
            r == self.complete(),
    {
        self.accepted == self.total_batches
    }

    /// The digest against which the last receipt's stand-alone cryptographic
    /// verification must run: the pre-image digest that receipt claimed.
    pub fn final_verification_digest(&self) -> (r: &ImageDigest)
        requires
            self.wf(),
            self.complete(),
        ensures
            r.wf(),
            r@ == self.history().last().pre,
    {
        &self.prev_expected
    }

    /// Records the verdict of the final stand-alone cryptographic
    /// verification of the last receipt: the chain is certified exactly when
    /// that verification succeeded; otherwise the run fails with a final
    /// verification error.
    pub fn finalize(&self, crypto_ok: bool) -> (r: Result<(), RunError>)
        requires
            self.wf(),
            self.complete(),
        ensures
            r is Ok <==> crypto_ok,
            r is Err ==> r == Err::<(), RunError>(RunError::FinalVerificationError),
    {
        if crypto_ok {
            Ok(())
        } else {
            Err(RunError::FinalVerificationError)
        }
    }

    /// Stand-alone re-verification of a final claim against an expected
    /// digest, given the verdict of the backend's cryptographic seal check:
    /// it accepts exactly when the seal verified, the claim names the
    /// expected digest as its pre-image, and the claim reports Finished.
    pub fn reverify_final_claim(claim: &ReceiptClaimInfo, expected: &ImageDigest, seal_ok: bool) -> (r:
        bool)
        ensures
            r == reverifies(claim@, expected@, seal_ok),
    {
        let finished = match claim.status {
            crate::receipt::CompletionStatus::Finished => true,
            crate::receipt::CompletionStatus::Continuing => false,
        };
        seal_ok && claim.pre_digest.matches(expected) && finished
    }

    /// Idempotent verification: the verdict of the final re-verification is
    /// a pure function of the claim, the digest and the seal verdict, so on
    /// an already-accepted final claim it succeeds again against the same
    /// digest — and against any other digest it always fails.
    pub proof fn lemma_reverification_digest_binding(
        c: ClaimView,
        d1: Seq<u8>,
        d2: Seq<u8>,
        seal_ok: bool,
    )
        requires
            reverifies(c, d1, seal_ok),
        ensures
            d2 == d1 ==> reverifies(c, d2, seal_ok),
            d2 != d1 ==> !reverifies(c, d2, seal_ok),
    {
    }

    /// Chain soundness: in any state the verifier can reach, every accepted
    /// claim's pre-image digest equals the previous claim's post-image
    /// digest, and the first accepted claim's equals the initial image's
    /// digest.
    pub proof fn lemma_chain_soundness(&self)
        requires
            self.wf(),
        ensures
            forall|i: int|
                1 <= i < self.history().len() ==> (#[trigger] self.history()[i]).pre
                    == self.history()[i - 1].post,
            self.history().len() > 0 ==> self.history()[0].pre == self.initial_digest(),
    {
    }

    /// Completion-status ordering: in any state the verifier can reach, all
    /// accepted claims but the one of the last batch report Continuing, and
    /// the last batch's claim reports Finished; in particular a complete
    /// chain ends in a Finished claim.
    pub proof fn lemma_status_ordering(&self)
        requires
            self.wf(),
        ensures
            forall|i: int|
                0 <= i < self.history().len() ==> ((#[trigger] self.history()[i]).finished <==> i
                    == self.total() - 1),
            self.complete() ==> self.history().last().finished,
            self.complete() ==> forall|i: int|
                0 <= i < self.history().len() - 1 ==> !(#[trigger] self.history()[i]).finished,
    {
        if self.complete() {
            assert(self.history().len() == self.total());
            assert(self.history().last() == self.history()[self.total() - 1]);
        }
    }
}

} // verus!
