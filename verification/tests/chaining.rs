use mm_chain::chain::ChainVerifier;
use mm_chain::digest::ImageDigest;
use mm_chain::errors::RunError;
use mm_chain::receipt::{CompletionStatus, ReceiptClaimInfo};

fn digest(seed: u8) -> ImageDigest {
    let bytes: Vec<u8> = (0..32).map(|i| seed.wrapping_add(i)).collect();
    ImageDigest::new(bytes).expect("32 bytes")
}

fn claim(pre: u8, post: u8, status: CompletionStatus) -> ReceiptClaimInfo {
    ReceiptClaimInfo {
        pre_digest: digest(pre),
        post_digest: digest(post),
        status,
        journal: vec![0, 0, 0, 0],
    }
}

#[test]
fn digest_rejects_wrong_length() {
    assert!(matches!(ImageDigest::new(vec![1, 2, 3]), Err(RunError::InputError)));
    assert!(matches!(ImageDigest::new(vec![0; 31]), Err(RunError::InputError)));
    assert!(matches!(ImageDigest::new(vec![0; 33]), Err(RunError::InputError)));
    assert!(ImageDigest::new(vec![0; 32]).is_ok());
}

#[test]
fn digest_matches_and_duplicates() {
    let a = digest(3);
    let b = digest(3);
    let c = digest(4);
    assert!(a.matches(&b));
    assert!(!a.matches(&c));
    let d = a.duplicate();
    assert!(d.matches(&a));
}

#[test]
fn linked_receipts_are_accepted() {
    let mut v = ChainVerifier::new(digest(0), 3);
    assert_eq!(v.accept_claim(&claim(0, 1, CompletionStatus::Continuing), true), Ok(()));
    assert_eq!(v.accept_claim(&claim(1, 2, CompletionStatus::Continuing), true), Ok(()));
    assert_eq!(v.accept_claim(&claim(2, 3, CompletionStatus::Finished), true), Ok(()));
    assert!(v.is_complete());
    assert!(v.final_verification_digest().matches(&digest(2)));
}

#[test]
fn spliced_receipt_is_rejected() {
    let mut v = ChainVerifier::new(digest(0), 3);
    assert_eq!(v.accept_claim(&claim(0, 1, CompletionStatus::Continuing), true), Ok(()));
    // The second receipt claims a pre-image digest no session produced.
    assert_eq!(
        v.accept_claim(&claim(9, 2, CompletionStatus::Continuing), true),
        Err(RunError::ChainContinuityError)
    );
    // The refusal left the chain where it was: the right receipt still fits.
    assert_eq!(v.batches_accepted(), 1);
    assert_eq!(v.accept_claim(&claim(1, 2, CompletionStatus::Continuing), true), Ok(()));
}

#[test]
fn truncated_run_is_rejected() {
    let mut v = ChainVerifier::new(digest(0), 2);
    assert_eq!(v.accept_claim(&claim(0, 1, CompletionStatus::Continuing), true), Ok(()));
    // The last batch's receipt must report Finished; a guest that failed to
    // halt is an execution failure.
    assert_eq!(
        v.accept_claim(&claim(1, 2, CompletionStatus::Continuing), true),
        Err(RunError::GuestExecutionError)
    );
}

#[test]
fn early_halt_is_rejected() {
    let mut v = ChainVerifier::new(digest(0), 3);
    assert_eq!(
        v.accept_claim(&claim(0, 1, CompletionStatus::Finished), true),
        Err(RunError::GuestExecutionError)
    );
}

#[test]
fn failed_integrity_check_is_rejected() {
    let mut v = ChainVerifier::new(digest(0), 1);
    assert_eq!(
        v.accept_claim(&claim(0, 1, CompletionStatus::Finished), false),
        Err(RunError::ProofIntegrityError)
    );
    assert_eq!(v.batches_accepted(), 0);
}

#[test]
fn finalize_follows_the_crypto_verdict() {
    let mut v = ChainVerifier::new(digest(0), 1);
    assert_eq!(v.accept_claim(&claim(0, 1, CompletionStatus::Finished), true), Ok(()));
    assert_eq!(v.finalize(false), Err(RunError::FinalVerificationError));
    assert_eq!(v.finalize(true), Ok(()));
    // Re-running the same verification yields the same verdict.
    assert_eq!(v.finalize(true), Ok(()));
}

#[test]
fn reverification_is_idempotent_and_digest_bound() {
    let c = claim(5, 6, CompletionStatus::Finished);
    // The same digest and the same seal verdict give the same acceptance,
    // every time.
    assert!(ChainVerifier::reverify_final_claim(&c, &digest(5), true));
    assert!(ChainVerifier::reverify_final_claim(&c, &digest(5), true));
    // Any other digest always fails, whatever the seal said.
    assert!(!ChainVerifier::reverify_final_claim(&c, &digest(6), true));
    assert!(!ChainVerifier::reverify_final_claim(&c, &digest(6), false));
    // A failed seal check always fails.
    assert!(!ChainVerifier::reverify_final_claim(&c, &digest(5), false));
    // A claim that did not finish the run never passes final verification.
    let unfinished = claim(5, 6, CompletionStatus::Continuing);
    assert!(!ChainVerifier::reverify_final_claim(&unfinished, &digest(5), true));
}
