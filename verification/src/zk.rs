//! The trusted boundary to the proving backend's receipts.
//!
//! A receipt is an opaque cryptographic artifact of the backend. Only three
//! things about it cross into the verified library, each behind a small
//! trusted wrapper: the plain values of its embedded claim, the verdict of
//! its integrity self-check, and the verdict of its full stand-alone
//! verification against an image digest. Everything decided from those
//! values is verified code.

use vstd::prelude::*;

use crate::digest::{DIGEST_BYTES, ImageDigest};
use crate::errors::RunError;
use crate::outcome::{decode_outcome_spec, target_established};
use crate::pipeline::{Phase, Pipeline};
use crate::receipt::{ExitKind, ReceiptClaimInfo, status_of_exit};

use risc0_zkvm::Receipt;
use risc0_zkvm::VerifierContext;
use risc0_zkvm::sha::Digestible;

verus! {

/// The proving backend's receipt type, opaque to this library.
#[verifier::external_type_specification]
#[verifier::external_body]
pub struct ExReceipt(Receipt);

/// Relies on risc0_zkvm's Receipt::claim and MaybePruned::as_value to open
/// the receipt's embedded claim, and on the Digestible digests of the
/// claim's pre and post system states, which hold 32 bytes each; the raw
/// exit code and the committed journal bytes come out unchanged.
#[verifier::external_body]
fn claim_parts(r: &Receipt) -> (res: Option<(Vec<u8>, Vec<u8>, ExitKind, Vec<u8>)>)
    ensures
        res matches Some(p) ==> p.0@.len() == DIGEST_BYTES && p.1@.len() == DIGEST_BYTES,
{
    let claim = r.claim().ok()?;
    let v = claim.as_value().ok()?;
    let exit = match v.exit_code {
        risc0_zkvm::ExitCode::Halted(code) => ExitKind::Halted(code),
        risc0_zkvm::ExitCode::Paused(code) => ExitKind::Paused(code),
        _ => ExitKind::Other,
    };
    let pre = v.pre.digest().as_bytes().to_vec();
    let post = v.post.digest().as_bytes().to_vec();
    Some((pre, post, exit, r.journal.bytes.clone()))
}

/// Relies on risc0_zkvm's Receipt::verify_integrity_with_context with the
/// default verifier context: true exactly when the receipt passes its
/// cryptographic integrity self-check.
#[verifier::external_body]
fn integrity_checked(r: &Receipt) -> bool {
    r.verify_integrity_with_context(&VerifierContext::default()).is_ok()
}

/// Relies on risc0_zkvm's Receipt::verify and Digest::from_bytes: true
/// exactly when the receipt passes full stand-alone cryptographic
/// verification against the given image digest. The digest must hold
/// exactly 32 bytes so the conversion to the backend's digest type cannot
/// fail.
#[verifier::external_body]
fn receipt_verifies_against(r: &Receipt, expected: &ImageDigest) -> bool
    requires
        expected@.len() == DIGEST_BYTES,
{
    let mut arr = [0u8; 32];
    arr.copy_from_slice(expected.bytes.as_slice());
    r.verify(risc0_zkvm::sha::Digest::from_bytes(arr)).is_ok()
}

/// Opens a receipt's claim into the library's model of it; fails with a
/// guest execution error when the claim cannot be opened or the guest's
/// exit was neither a clean pause nor a clean halt.
pub fn claim_of_receipt(r: &Receipt) -> (res: Result<ReceiptClaimInfo, RunError>)
    ensures
        res matches Ok(c) ==> c.wf(),
        res is Err ==> res == Err::<ReceiptClaimInfo, RunError>(RunError::GuestExecutionError),
{
    let parts = match claim_parts(r) {
        Some(p) => p,
        None => {
            return Err(RunError::GuestExecutionError);
        },
    };
    let (pre, post, exit, journal) = parts;
    let status = match status_of_exit(exit) {
        Some(s) => s,
        None => {
            return Err(RunError::GuestExecutionError);
        },
    };
    let pre_digest = match ImageDigest::new(pre) {
        Ok(d) => d,
        Err(_) => {
            return Err(RunError::GuestExecutionError);
        },
    };
    let post_digest = match ImageDigest::new(post) {
        Ok(d) => d,
        Err(_) => {
            return Err(RunError::GuestExecutionError);
        },
    };
    Ok(ReceiptClaimInfo { pre_digest, post_digest, status, journal })
}

/// Validates the next receipt within a running pipeline: opens its claim,
/// runs the backend's integrity self-check, and lets the state machine
/// accept or refuse it. An accepted claim carries the chain forward exactly
/// as [`Pipeline::check_claim`] promises; any refusal fails the run with
/// the refusing error.
pub fn check_receipt(p: &mut Pipeline, r: &Receipt) -> (res: Result<ReceiptClaimInfo, RunError>)
    requires
        old(p).wf(),
        old(p).phase() is Verifying,
    ensures
        final(p).wf(),
        final(p).target_of() == old(p).target_of(),
        res matches Ok(c) ==> {
            &&& c.wf()
            &&& (c@.finished <==> old(p).chain().accepted_count() == old(p).chain().total() - 1)
            &&& c@.pre == old(p).chain().expected_digest()
            &&& final(p).chain().history() == old(p).chain().history().push(c@)
            &&& final(p).chain().accepted_count() == old(p).chain().accepted_count() + 1
            &&& final(p).chain().expected_digest() == c@.post
            &&& if final(p).chain().complete() {
                final(p).phase() == Phase::Finalizing
            } else {
                final(p).phase() == (Phase::Running {
                    batch: (old(p).chain().accepted_count() + 1) as usize,
                })
            }
        },
        res matches Err(e) ==> {
            &&& final(p).phase() == Phase::Failed
            &&& final(p).failure() == Some(e)
        },
{
    let claim = match claim_of_receipt(r) {
        Ok(c) => c,
        Err(e) => {
            p.abort(e);
            return Err(e);
        },
    };
    let ok = integrity_checked(r);
    match p.check_claim(&claim, ok) {
        Ok(()) => Ok(claim),
        Err(e) => Err(e),
    }
}

/// Certifies a finalizing pipeline with its last receipt: runs the
/// stand-alone cryptographic verification against the digest the chain
/// fixed, then reports the verdict from the given committed payload. A
/// reported verdict is always one the payload decodes to and one that
/// establishes the requested target; any failure rejects the run.
pub fn certify_with_receipt(p: &mut Pipeline, r: &Receipt, journal: &Vec<u8>) -> (res: Result<
    u16,
    RunError,
>)
    requires
        old(p).wf(),
        old(p).phase() == Phase::Finalizing,
    ensures
        final(p).wf(),
        final(p).target_of() == old(p).target_of(),
        res matches Ok(label) ==> {
            &&& final(p).phase() == Phase::Done
            &&& final(p).verdict() == Some(label)
            &&& decode_outcome_spec(journal@) == Some(Some(label))
            &&& target_established(Some(label), old(p).target_of())
        },
        res matches Err(e) ==> {
            &&& final(p).phase() == Phase::Failed
            &&& final(p).failure() == Some(e)
        },
{
    let ok = receipt_verifies_against(r, p.final_verification_digest());
    p.certify(ok, journal)
}

} // verus!
