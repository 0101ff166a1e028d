//! The model of a receipt's claim.
//!
//! A receipt attests that one proving session executed faithfully. The claim
//! embedded in it states the digest of the image the session started from,
//! the digest of the image it produced, whether the guest paused (more
//! batches follow) or halted (the run is finished), and the output payload
//! the guest committed. The chain verifier works on exactly these values.

use vstd::prelude::*;

use crate::digest::ImageDigest;

verus! {

/// How a session completed: the guest paused awaiting the next batch, or
/// halted because the whole token stream is consumed.
#[derive(Clone, Copy, Debug, PartialEq, Eq, Structural)]
pub enum CompletionStatus {
    /// The guest paused; a later batch resumes from the produced image.
    Continuing,
    /// The guest halted; the produced image is the final one.
    Finished,
}

/// How the guest reported leaving a session, before it is interpreted: the
/// raw halt or pause code, or anything else.
#[derive(Clone, Copy, Debug, PartialEq, Eq, Structural)]
pub enum ExitKind {
    /// The guest halted with the given user code.
    Halted(u32),
    /// The guest paused with the given user code.
    Paused(u32),
    /// A trap, a system split or any other abnormal exit.
    Other,
}

/// The claim a receipt makes about one session.
#[derive(Debug)]
pub struct ReceiptClaimInfo {
    /// Digest of the image the session started from.
    pub pre_digest: ImageDigest,
    /// Digest of the image the session produced.
    pub post_digest: ImageDigest,
    /// Whether the session paused or finished the run.
    pub status: CompletionStatus,
    /// The output payload the guest committed during the session.
    pub journal: Vec<u8>,
}

/// The mathematical shadow of a claim.
pub struct ClaimView {
    /// The claimed pre-image digest.
    pub pre: Seq<u8>,
    /// The claimed post-image digest.
    pub post: Seq<u8>,
    /// True exactly when the session reported Finished.
    pub finished: bool,
    /// The committed output payload.
    pub journal: Seq<u8>,
}

impl View for ReceiptClaimInfo {
    type V = ClaimView;

    open spec fn view(&self) -> ClaimView {
        ClaimView {
            pre: self.pre_digest@,
            post: self.post_digest@,
            finished: self.status is Finished,
            journal: self.journal@,
        }
    }
}

impl ReceiptClaimInfo {
    /// A claim is well formed when both its digests are.
    pub open spec fn wf(&self) -> bool {
        self.pre_digest.wf() && self.post_digest.wf()
    }
}

/// Interprets a raw guest exit as a completion status: a pause with user
/// code zero continues the run, a halt with user code zero finishes it, and
/// every other exit is an execution failure of the guest.
pub fn status_of_exit(exit: ExitKind) -> (r: Option<CompletionStatus>)
    ensures
        r == Some(CompletionStatus::Continuing) <==> exit == ExitKind::Paused(0u32),
        r == Some(CompletionStatus::Finished) <==> exit == ExitKind::Halted(0u32),
        r is None <==> !(exit == ExitKind::Paused(0u32) || exit == ExitKind::Halted(0u32)),
{
    match exit {
        ExitKind::Paused(code) => if code == 0 {
            Some(CompletionStatus::Continuing)
        } else {
            None
        },
        ExitKind::Halted(code) => if code == 0 {
            Some(CompletionStatus::Finished)
        } else {
            None
        },
        ExitKind::Other => None,
    }
}

} // verus!
