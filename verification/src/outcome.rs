//! The result reporter.
//!
//! The guest commits an output payload during its final session: whether it
//! established a theorem, and which one, as a little-endian word encoding of
//! an optional theorem label. The reporter decodes that payload and compares
//! it against the caller's requested target theorem; a run succeeds only
//! when the guest's reported outcome establishes the requested target.

use vstd::prelude::*;

use crate::errors::RunError;

verus! {

/// The payload a guest commits for an outcome: one little-endian 32-bit tag
/// word — zero for no theorem, one for an established theorem — followed,
/// when a theorem was established, by its label in a little-endian 32-bit
/// word.
pub open spec fn outcome_encoding(outcome: Option<u16>) -> Seq<u8> {
    match outcome {
        None => seq![0u8, 0u8, 0u8, 0u8],
        Some(label) => seq![
            1u8,
            0u8,
            0u8,
            0u8,
            (label as int % 256) as u8,
            (label as int / 256) as u8,
            0u8,
            0u8,
        ],
    }
}

/// The outcome a payload encodes, or nothing when the payload is malformed.
pub open spec fn decode_outcome_spec(j: Seq<u8>) -> Option<Option<u16>> {
    if j.len() == 4 && j[0] == 0u8 && j[1] == 0u8 && j[2] == 0u8 && j[3] == 0u8 {
        Some(None)
    } else if j.len() == 8 && j[0] == 1u8 && j[1] == 0u8 && j[2] == 0u8 && j[3] == 0u8 && j[6]
        == 0u8 && j[7] == 0u8 {
        Some(Some((j[4] as int + j[5] as int * 256) as u16))
    } else {
        None
    }
}

/// Decoding inverts encoding: every outcome's payload decodes back to
/// exactly that outcome.
pub proof fn lemma_outcome_roundtrip(outcome: Option<u16>)
    ensures
        decode_outcome_spec(outcome_encoding(outcome)) == Some(outcome),
{
    match outcome {
        None => {},
        Some(label) => {
            let j = outcome_encoding(outcome);
            assert(label as int % 256 + (label as int / 256) * 256 == label as int) by (nonlinear_arith);
            assert(j[4] as int + j[5] as int * 256 == label as int);
        },
    }
}

/// Decodes the guest's committed payload; fails with a guest execution
/// error exactly when the payload is not a well-formed outcome.
pub fn decode_outcome(journal: &Vec<u8>) -> (r: Result<Option<u16>, RunError>)
    ensures
        r is Ok <==> decode_outcome_spec(journal@) is Some,
        r matches Ok(o) ==> decode_outcome_spec(journal@) == Some(o),
        r is Err ==> r == Err::<Option<u16>, RunError>(RunError::GuestExecutionError),
{
    if journal.len() == 4 && journal[0] == 0 && journal[1] == 0 && journal[2] == 0 && journal[3]
        == 0 {
        Ok(None)
    } else if journal.len() == 8 && journal[0] == 1 && journal[1] == 0 && journal[2] == 0
        && journal[3] == 0 && journal[6] == 0 && journal[7] == 0 {
        let lo: u16 = journal[4] as u16;
        let hi: u16 = journal[5] as u16;
        let label: u16 = lo + hi * 256;
        Ok(Some(label))
    } else {
        Err(RunError::GuestExecutionError)
    }
}

/// Encodes an outcome as the guest commits it.
pub fn encode_outcome(outcome: Option<u16>) -> (r: Vec<u8>)
    ensures
        r@ == outcome_encoding(outcome),
{
    match outcome {
        None => {
            let v: Vec<u8> = vec![0u8, 0u8, 0u8, 0u8];
            proof {
                assert(v@ =~= outcome_encoding(None));
            }
            v
        },
        Some(label) => {
            let lo: u8 = (label % 256) as u8;
            let hi: u8 = (label / 256) as u8;
            let v: Vec<u8> = vec![1u8, 0u8, 0u8, 0u8, lo, hi, 0u8, 0u8];
            proof {
                assert(v@ =~= outcome_encoding(Some(label)));
            }
            v
        },
    }
}

/// Whether a reported outcome establishes the requested target: a requested
/// theorem must be exactly the established one; a caller that requested no
/// particular theorem accepts any established theorem, but never a run that
/// established none.
pub open spec fn target_established(outcome: Option<u16>, target: Option<u16>) -> bool {
    match target {
        Some(t) => outcome == Some(t),
        None => outcome is Some,
    }
}

/// Compares the guest's reported outcome against the requested target and
/// hands back the established theorem's label; fails with a target mismatch
/// exactly when the outcome does not establish the target.
pub fn check_target(outcome: Option<u16>, target: Option<u16>) -> (r: Result<u16, RunError>)
    ensures
        r is Ok <==> target_established(outcome, target),
        r matches Ok(label) ==> outcome == Some(label),
        r is Err ==> r == Err::<u16, RunError>(RunError::TargetMismatchError),
{
    match outcome {
        None => Err(RunError::TargetMismatchError),
        Some(established) => match target {
            None => Ok(established),
            Some(t) => if established == t {
                Ok(established)
            } else {
                Err(RunError::TargetMismatchError)
            },
        },
    }
}

/// Decodes the final receipt's payload and checks it against the requested
/// target in one step: the verdict of a run.
pub fn report(journal: &Vec<u8>, target: Option<u16>) -> (r: Result<u16, RunError>)
    ensures
        r is Ok <==> (decode_outcome_spec(journal@) matches Some(o) && target_established(
            o,
            target,
        )),
        r matches Ok(label) ==> decode_outcome_spec(journal@) == Some(Some(label)),
        r is Err ==> (r == Err::<u16, RunError>(RunError::GuestExecutionError) || r == Err::<
            u16,
            RunError,
        >(RunError::TargetMismatchError)),
        decode_outcome_spec(journal@) is None ==> r == Err::<u16, RunError>(
            RunError::GuestExecutionError,
        ),
        decode_outcome_spec(journal@) matches Some(o) && !target_established(o, target) ==> r
            == Err::<u16, RunError>(RunError::TargetMismatchError),
    {
    let outcome = decode_outcome(journal)?;
    check_target(outcome, target)
}

} // verus!
