//! The pipeline's state machine.
//!
//! A run moves through explicit states: from `Init` it starts running batch
//! zero; a proved batch moves it into verification of that batch's receipt;
//! an accepted receipt starts the next batch, or — after the last batch —
//! finalization; finalization certifies the last receipt and reports the
//! verdict. Any failing check moves the run to `Failed` and stays there:
//! there is no partial success.

use vstd::prelude::*;

use crate::chain::ChainVerifier;
use crate::digest::ImageDigest;
use crate::errors::RunError;
use crate::outcome::{decode_outcome_spec, report, target_established};
use crate::receipt::ReceiptClaimInfo;

verus! {

/// Where a run stands.
#[derive(Clone, Copy, Debug, PartialEq, Eq, Structural)]
pub enum Phase {
    /// Nothing has run yet.
    Init,
    /// The guest is executing and proving the given batch.
    Running { batch: usize },
    /// The given batch's receipt is being validated.
    Verifying { batch: usize },
    /// All receipts are accepted; the final one awaits certification.
    Finalizing,
    /// The chain is certified and a verdict was reported.
    Done,
    /// A check failed; the run is rejected.
    Failed,
}

/// One run of the batch-chaining pipeline.
pub struct Pipeline {
    phase: Phase,
    chain: ChainVerifier,
    target: Option<u16>,
    verdict: Option<u16>,
    failure: Option<RunError>,
}

impl Pipeline {
    /// The state the run is in.
    pub closed spec fn phase(&self) -> Phase {
        self.phase
    }

    /// The chain verifier carried through the run.
    pub closed spec fn chain(&self) -> ChainVerifier {
        self.chain
    }

    /// The requested target theorem, if one was requested.
    pub closed spec fn target_of(&self) -> Option<u16> {
        self.target
    }

    /// The reported verdict — the established theorem's label — once the
    /// run is done.
    pub closed spec fn verdict(&self) -> Option<u16> {
        self.verdict
    }

    /// The failure that rejected the run, if one did.
    pub closed spec fn failure(&self) -> Option<RunError> {
        self.failure
    }

    /// The pipeline's invariant: the chain verifier is sound and the phase
    /// agrees with how much of the chain has been accepted.
    pub closed spec fn wf(&self) -> bool {
        &&& self.chain.wf()
        &&& match self.phase {
            Phase::Init => self.chain.accepted_count() == 0 && self.failure is None
                && self.verdict is None,
            Phase::Running { batch } => batch as int == self.chain.accepted_count() && (
            batch as int) < self.chain.total() && self.failure is None && self.verdict is None,
            Phase::Verifying { batch } => batch as int == self.chain.accepted_count() && (
            batch as int) < self.chain.total() && self.failure is None && self.verdict is None,
            Phase::Finalizing => self.chain.complete() && self.failure is None
                && self.verdict is None,
            Phase::Done => self.chain.complete() && self.failure is None && self.verdict is Some,
            Phase::Failed => self.failure is Some && self.verdict is None,
        }
    }

    /// Sets up a run: a chain anchored at the initial image's digest, a
    /// batch count, and the caller's requested target theorem.
    pub fn new(initial: ImageDigest, total_batches: usize, target: Option<u16>) -> (r: Pipeline)
        requires
            initial.wf(),
            1 <= total_batches,
        ensures
            r.wf(),
            r.phase() == Phase::Init,
            r.chain().initial_digest() == initial@,
            r.chain().total() == total_batches as int,
            r.chain().accepted_count() == 0,
            r.target_of() == target,
    {
        Pipeline {
            phase: Phase::Init,
            chain: ChainVerifier::new(initial, total_batches),
            target,
            verdict: None,
            failure: None,
        }
    }

    /// Starts the run: batch zero begins executing.
    pub fn begin(&mut self) -> (r: usize)
        requires
            old(self).wf(),
            old(self).phase() == Phase::Init,
        ensures
            final(self).wf(),
            final(self).phase() == (Phase::Running { batch: 0usize }),
            final(self).chain() == old(self).chain(),
            final(self).target_of() == old(self).target_of(),
            r == 0,
    {
        proof {
            self.chain.lemma_wf_bounds();
        }
        self.phase = Phase::Running { batch: 0 };
        0
    }

    /// A session and its proof finished for the batch being run: its
    /// receipt now awaits validation.
    pub fn session_proved(&mut self)
        requires
            old(self).wf(),
            old(self).phase() is Running,
        ensures
            final(self).wf(),
            match old(self).phase() {
                Phase::Running { batch } => final(self).phase() == (Phase::Verifying { batch }),
                _ => false,
            },
            final(self).chain() == old(self).chain(),
            final(self).target_of() == old(self).target_of(),
    {
        let batch = match self.phase {
            Phase::Running { batch } => batch,
            _ => 0,
        };
        self.phase = Phase::Verifying { batch };
    }

    /// Validates the receipt claim of the batch under verification, exactly
    /// as the chain verifier does. Acceptance starts the next batch, or
    /// moves a complete chain to finalization; refusal fails the run with
    /// the refusing error and leaves the chain unchanged.
    pub fn check_claim(&mut self, claim: &ReceiptClaimInfo, integrity_ok: bool) -> (r: Result<
        (),
        RunError,
    >)
        requires
            old(self).wf(),
            old(self).phase() is Verifying,
            claim.wf(),
        ensures
            final(self).wf(),
            final(self).target_of() == old(self).target_of(),
            r is Ok <==> integrity_ok && (claim@.finished <==> old(self).chain().accepted_count()
                == old(self).chain().total() - 1) && claim@.pre == old(
                self,
            ).chain().expected_digest(),
            !integrity_ok ==> r == Err::<(), RunError>(RunError::ProofIntegrityError),
            integrity_ok && !(claim@.finished <==> old(self).chain().accepted_count() == old(
                self,
            ).chain().total() - 1) ==> r == Err::<(), RunError>(RunError::GuestExecutionError),
            integrity_ok && (claim@.finished <==> old(self).chain().accepted_count() == old(
                self,
            ).chain().total() - 1) && claim@.pre != old(self).chain().expected_digest() ==> r
                == Err::<(), RunError>(RunError::ChainContinuityError),
            r is Ok ==> {
                &&& final(self).chain().history() == old(self).chain().history().push(claim@)
                &&& final(self).chain().accepted_count() == old(self).chain().accepted_count() + 1
                &&& final(self).chain().expected_digest() == claim@.post
                &&& final(self).chain().initial_digest() == old(self).chain().initial_digest()
                &&& final(self).chain().total() == old(self).chain().total()
                &&& if final(self).chain().complete() {
                    final(self).phase() == Phase::Finalizing
                } else {
                    final(self).phase() == (Phase::Running {
                        batch: (old(self).chain().accepted_count() + 1) as usize,
                    })
                }
            },
            r matches Err(e) ==> {
                &&& final(self).phase() == Phase::Failed
                &&& final(self).failure() == Some(e)
                &&& final(self).chain() == old(self).chain()
            },
    {
        match self.chain.accept_claim(claim, integrity_ok) {
            Ok(()) => {
                proof {
                    self.chain.lemma_wf_bounds();
                }
                if self.chain.is_complete() {
                    self.phase = Phase::Finalizing;
                } else {
                    let next = self.chain.batches_accepted();
                    self.phase = Phase::Running { batch: next };
                }
                Ok(())
            },
            Err(e) => {
                self.phase = Phase::Failed;
                self.failure = Some(e);
                Err(e)
            },
        }
    }

    /// Certifies a complete chain and reports the verdict. The final
    /// receipt's stand-alone cryptographic verification must have
    /// succeeded, and the decoded payload must establish the requested
    /// target. Success reports the established theorem's label; any failure
    /// rejects the run.
    pub fn certify(&mut self, crypto_ok: bool, journal: &Vec<u8>) -> (r: Result<u16, RunError>)
        requires
            old(self).wf(),
            old(self).phase() == Phase::Finalizing,
        ensures
            final(self).wf(),
            final(self).target_of() == old(self).target_of(),
            final(self).chain() == old(self).chain(),
            r is Ok <==> crypto_ok && (decode_outcome_spec(journal@) matches Some(o)
                && target_established(o, old(self).target_of())),
            !crypto_ok ==> r == Err::<u16, RunError>(RunError::FinalVerificationError),
            crypto_ok && decode_outcome_spec(journal@) is None ==> r == Err::<u16, RunError>(
                RunError::GuestExecutionError,
            ),
            crypto_ok && (decode_outcome_spec(journal@) matches Some(o) && !target_established(
                o,
                old(self).target_of(),
            )) ==> r == Err::<u16, RunError>(RunError::TargetMismatchError),
            r matches Ok(label) ==> {
                &&& final(self).phase() == Phase::Done
                &&& final(self).verdict() == Some(label)
                &&& decode_outcome_spec(journal@) == Some(Some(label))
            },
            r matches Err(e) ==> {
                &&& final(self).phase() == Phase::Failed
                &&& final(self).failure() == Some(e)
            },
    {
        match self.chain.finalize(crypto_ok) {
            Ok(()) => {},
            Err(e) => {
                self.phase = Phase::Failed;
                self.failure = Some(e);
                return Err(e);
            },
        }
        match report(journal, self.target) {
            Ok(label) => {
                self.verdict = Some(label);
                self.phase = Phase::Done;
                Ok(label)
            },
            Err(e) => {
                self.phase = Phase::Failed;
                self.failure = Some(e);
                Err(e)
            },
        }
    }

    /// The digest against which the last receipt's stand-alone
    /// cryptographic verification must run.
    pub fn final_verification_digest(&self) -> (r: &ImageDigest)
        requires
            self.wf(),
            self.phase() == Phase::Finalizing,
        ensures
            r.wf(),
            r@ == self.chain().history().last().pre,
    {
        proof {
            self.chain.lemma_wf_bounds();
        }
        self.chain.final_verification_digest()
    }

    /// Rejects the run for a failure that arose outside the receipt checks
    /// — the guest trapped, an input could not be read, or a checkpoint
    /// could not be written.
    pub fn abort(&mut self, e: RunError)
        requires
            old(self).wf(),
            old(self).phase() != Phase::Done,
        ensures
            final(self).wf(),
            final(self).phase() == Phase::Failed,
            final(self).failure() == Some(e),
            final(self).chain() == old(self).chain(),
            final(self).target_of() == old(self).target_of(),
    {
        self.verdict = None;
        self.failure = Some(e);
        self.phase = Phase::Failed;
    }

    /// A finished run certified the whole chain: once the pipeline is done,
    /// every batch's receipt was accepted, the accepted claims link
    /// digest-to-digest from the initial image, all but the last report
    /// Continuing and the last reports Finished, and a verdict was
    /// reported.
    pub proof fn lemma_done_is_fully_verified(&self)
        requires
            self.wf(),
            self.phase() == Phase::Done,
        ensures
            self.chain().wf(),
            self.chain().complete(),
            self.chain().history().len() == self.chain().total(),
            crate::chain::chained(self.chain().initial_digest(), self.chain().history()),
            crate::chain::statuses_ordered(self.chain().history(), self.chain().total()),
            self.verdict() is Some,
    {
        self.chain.lemma_wf_bounds();
        self.chain.lemma_wf_history();
    }

    /// No partial success: a rejected run names its failure and reports no
    /// verdict.
    pub proof fn lemma_no_partial_success(&self)
        requires
            self.wf(),
            self.phase() == Phase::Failed,
        ensures
            self.failure() is Some,
            self.verdict() is None,
    {
    }

    /// The state the run is in.
    pub fn phase_of(&self) -> (r: Phase)
        ensures
            r == self.phase(),
    {
        self.phase
    }

    /// The reported verdict, once the run is done.
    pub fn verdict_label(&self) -> (r: Option<u16>)
        ensures
            r == self.verdict(),
    {
        self.verdict
    }

    /// The failure that rejected the run, if one did.
    pub fn failure_code(&self) -> (r: Option<RunError>)
        ensures
            r == self.failure(),
    {
        self.failure
    }
}

} // verus!
