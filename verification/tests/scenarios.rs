//! End-to-end runs of the pipeline state machine against a deterministic
//! stand-in for the opaque guest program: its state is a running fold of the
//! consumed tokens, its image digest a function of that state, and the
//! theorem it establishes the fold of the whole stream.

use mm_chain::batch::{check_restore_split, split_for_resume, split_into_batches};
use mm_chain::checkpoint::{decode_checkpoint, encode_checkpoint, CheckpointImage};
use mm_chain::digest::ImageDigest;
use mm_chain::errors::RunError;
use mm_chain::outcome::encode_outcome;
use mm_chain::pipeline::{Phase, Pipeline};
use mm_chain::receipt::{CompletionStatus, ReceiptClaimInfo};

fn digest_of(acc: u64) -> ImageDigest {
    let mut bytes: Vec<u8> = Vec::new();
    for chunk in 0u64..4 {
        bytes.extend_from_slice(&acc.wrapping_add(chunk).to_le_bytes());
    }
    ImageDigest::new(bytes).expect("32 bytes")
}

fn advance(acc: u64, batch: &[u16]) -> u64 {
    batch.iter().fold(acc, |a, t| a.wrapping_mul(31).wrapping_add(*t as u64))
}

fn theorem_of(acc: u64) -> u16 {
    (acc % 65536) as u16
}

/// Runs the whole pipeline over `n` batches, the guest starting from state
/// `acc0`, and returns the verdict.
fn run(tokens: &Vec<u16>, n: usize, acc0: u64, target: Option<u16>) -> Result<u16, RunError> {
    let batches = split_into_batches(tokens, n);
    let mut acc = acc0;
    let mut pipeline = Pipeline::new(digest_of(acc), n, target);
    pipeline.begin();
    let mut verdict = Err(RunError::InputError);
    for (i, b) in batches.iter().enumerate() {
        let pre = digest_of(acc);
        acc = advance(acc, b);
        let post = digest_of(acc);
        let last = i == n - 1;
        let journal = if last { encode_outcome(Some(theorem_of(acc))) } else { Vec::new() };
        pipeline.session_proved();
        let claim = ReceiptClaimInfo {
            pre_digest: pre,
            post_digest: post,
            status: if last { CompletionStatus::Finished } else { CompletionStatus::Continuing },
            journal: journal.clone(),
        };
        pipeline.check_claim(&claim, true)?;
        if last {
            // The stand-alone verification runs against the digest the last
            // receipt claimed as its pre-image.
            assert!(pipeline.final_verification_digest().matches(&claim.pre_digest));
            verdict = pipeline.certify(true, &journal);
            assert_eq!(pipeline.phase_of(), if verdict.is_ok() { Phase::Done } else { Phase::Failed });
        }
    }
    verdict
}

#[test]
fn minimal_script_single_batch_establishes_target() {
    let tokens: Vec<u16> = vec![3, 1, 4, 1, 5];
    let expected = theorem_of(advance(0, &tokens));
    let verdict = run(&tokens, 1, 0, Some(expected));
    assert_eq!(verdict, Ok(expected));
}

#[test]
fn verdict_is_invariant_under_batch_count() {
    let tokens: Vec<u16> = (0..100).map(|i| (i * 7 + 2) as u16).collect();
    let expected = theorem_of(advance(0, &tokens));
    let one = run(&tokens, 1, 0, Some(expected));
    let two = run(&tokens, 2, 0, Some(expected));
    let many = run(&tokens, 5, 0, Some(expected));
    assert_eq!(one, Ok(expected));
    assert_eq!(one, two);
    assert_eq!(one, many);
}

#[test]
fn corrupted_script_fails_with_no_accepted_verdict() {
    let tokens: Vec<u16> = vec![3, 1, 4, 1, 5];
    let expected = theorem_of(advance(0, &tokens));
    // The corrupted script no longer derives the target theorem.
    let mut corrupted = tokens.clone();
    corrupted[2] = 9;
    let verdict = run(&corrupted, 1, 0, Some(expected));
    assert_eq!(verdict, Err(RunError::TargetMismatchError));
}

#[test]
fn trapping_guest_fails_the_run() {
    let mut pipeline = Pipeline::new(digest_of(0), 1, None);
    pipeline.begin();
    // The guest trapped: no claim ever reaches the verifier.
    pipeline.abort(RunError::GuestExecutionError);
    assert_eq!(pipeline.phase_of(), Phase::Failed);
    assert_eq!(pipeline.failure_code(), Some(RunError::GuestExecutionError));
    assert_eq!(pipeline.verdict_label(), None);
}

#[test]
fn spliced_receipt_fails_the_pipeline() {
    let mut pipeline = Pipeline::new(digest_of(0), 2, None);
    pipeline.begin();
    pipeline.session_proved();
    // A receipt from an unrelated session: its claimed pre-image digest is
    // not the one the chain expects.
    let claim = ReceiptClaimInfo {
        pre_digest: digest_of(99),
        post_digest: digest_of(1),
        status: CompletionStatus::Continuing,
        journal: Vec::new(),
    };
    assert_eq!(pipeline.check_claim(&claim, true), Err(RunError::ChainContinuityError));
    assert_eq!(pipeline.phase_of(), Phase::Failed);
    assert_eq!(pipeline.failure_code(), Some(RunError::ChainContinuityError));
    assert_eq!(pipeline.verdict_label(), None);
}

#[test]
fn restored_run_matches_unbroken_run() {
    let tokens: Vec<u16> = (0..60).map(|i| (i * 11 + 5) as u16).collect();
    let expected = theorem_of(advance(0, &tokens));

    // The unbroken run: three batches in one process.
    let unbroken = run(&tokens, 3, 0, Some(expected));
    assert_eq!(unbroken, Ok(expected));

    // The interrupted run executes batch 0 of 3, then saves a checkpoint.
    let batches = split_into_batches(&tokens, 3);
    let consumed = batches[0].len();
    let acc_mid = advance(0, &batches[0]);
    let saved = encode_checkpoint(&CheckpointImage {
        blob: acc_mid.to_le_bytes().to_vec(),
        digest: digest_of(acc_mid),
    });

    // A fresh run restores the checkpoint and finishes the remaining tokens
    // as a single final session.
    let restored = decode_checkpoint(&saved).expect("checkpoint reads back");
    assert!(restored.digest.matches(&digest_of(acc_mid)));
    check_restore_split(true, 2).expect("a restoring run uses two batches");
    let (_prefix, suffix) = split_for_resume(&tokens, consumed).expect("progress within stream");
    let acc_restored = u64::from_le_bytes(restored.blob.as_slice().try_into().expect("8 bytes"));
    let resumed = run(&suffix, 1, acc_restored, Some(expected));
    assert_eq!(resumed, unbroken);
}
