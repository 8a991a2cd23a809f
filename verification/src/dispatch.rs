//! The entry point: a submitted result goes to the verifier of its phase.

use vstd::prelude::*;
use crate::keygen::{keygen_outcome, verify_keygen};
use crate::quorum::quorum_attested;
use crate::signing::{correctly_signed, signing_outcome, verify_signing};
use crate::types::{Error, JobResult, JobResultView};

verus! {

/// The outcome of verifying a submitted result.
pub open spec fn verify_outcome(result: JobResultView) -> Result<(), Error> {
    match result {
        JobResultView::DKGPhaseOne(keygen) => keygen_outcome(keygen),
        JobResultView::DKGPhaseTwo(signing) => signing_outcome(signing),
    }
}

/// Whether a submitted result is sound: a quorum attests the shared key,
/// or the signature attributes to the signing key.
pub open spec fn soundly_signed(result: JobResultView) -> bool {
    match result {
        JobResultView::DKGPhaseOne(keygen) => quorum_attested(keygen),
        JobResultView::DKGPhaseTwo(signing) => correctly_signed(signing),
    }
}

/// Verification has no hidden state: results that hold the same bytes have
/// the same outcome, however often and wherever they are verified.
pub proof fn lemma_verify_deterministic(first: JobResult, second: JobResult)
    requires
        first@ == second@,
    ensures
        verify_outcome(first@) == verify_outcome(second@),
{
}

/// Verifies a submitted result and reports success or the one reason for
/// which it is rejected.
pub fn verify(result: JobResult) -> (out: Result<(), Error>)
    ensures
        out == verify_outcome(result@),
        out is Ok <==> soundly_signed(result@),
{
    match result {
        JobResult::DKGPhaseOne(keygen) => verify_keygen(&keygen),
        JobResult::DKGPhaseTwo(signing) => verify_signing(&signing),
    }
}

} // verus!
