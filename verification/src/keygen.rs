//! Phase one: a shared key is accepted when more members than the threshold
//! attest it, each with a signature of their own.

use vstd::prelude::*;
use crate::bytes::contains_bytes;
use crate::hasher::{digest_message, message_digest};
use crate::quorum::{lemma_keygen_success, quorum_attested};
use crate::scheme::{directly_verified, recover_signer, recovered_signer, verify_signature};
use crate::types::{byte_strings, DKGResult, DKGResultView, DkgKeyType, Error};

verus! {

/// The view of a resolved signer, or of the failure to resolve one.
pub open spec fn signer_view(signer: Option<Vec<u8>>) -> Option<Seq<u8>> {
    match signer {
        Some(key) => Some(key@),
        None => None,
    }
}

/// The first of `participants` under whose key `signature` verifies.
pub open spec fn first_verifying(
    digest: Seq<u8>,
    signature: Seq<u8>,
    participants: Seq<Seq<u8>>,
) -> Option<Seq<u8>>
    decreases participants.len(),
{
    if participants.len() == 0 {
        None
    } else if directly_verified(digest, signature, participants.first()) {
        Some(participants.first())
    } else {
        first_verifying(digest, signature, participants.drop_first())
    }
}

/// The signer that a signature over `digest` resolves to. The recoverable
/// scheme derives the key from the signature; the direct scheme tries the
/// participants in turn.
pub open spec fn resolved_signer(
    key_type: DkgKeyType,
    digest: Seq<u8>,
    signature: Seq<u8>,
    participants: Seq<Seq<u8>>,
) -> Option<Seq<u8>> {
    match key_type {
        DkgKeyType::Ecdsa => match recovered_signer(digest, signature) {
            Ok(key) => Some(key),
            Err(_) => None,
        },
        DkgKeyType::Schnorr => first_verifying(digest, signature, participants),
    }
}

/// The signer that an attestation of `key` resolves to. Where `key` has no
/// digest, no signature resolves.
pub open spec fn attesting_signer(
    key_type: DkgKeyType,
    key: Seq<u8>,
    participants: Seq<Seq<u8>>,
    signature: Seq<u8>,
) -> Option<Seq<u8>> {
    match message_digest(key_type, key) {
        Some(digest) => resolved_signer(key_type, digest, signature, participants),
        None => None,
    }
}

/// The signers that the signatures of `result` resolve to, in the order of
/// the signatures.
pub open spec fn resolved_signers(result: DKGResultView) -> Seq<Option<Seq<u8>>> {
    result.signatures.map_values(
        |signature: Seq<u8>|
            attesting_signer(result.key_type, result.key, result.participants, signature),
    )
}

/// What one resolved signer means for a result, given the signers already
/// counted.
pub open spec fn signer_step(
    participants: Seq<Seq<u8>>,
    counted: Seq<Seq<u8>>,
    resolved: Option<Seq<u8>>,
) -> Result<(), Error> {
    match resolved {
        None => Err(Error::InvalidSignature),
        Some(signer) => if !participants.contains(signer) {
            Err(Error::InvalidSignature)
        } else if counted.contains(signer) {
            Err(Error::DuplicateSignature)
        } else {
            Ok(())
        },
    }
}

/// The verdict on the signature at `index`: it must resolve to a
/// participant that no earlier signature resolved to.
pub open spec fn signer_verdict(
    participants: Seq<Seq<u8>>,
    resolved: Seq<Option<Seq<u8>>>,
    index: int,
) -> Result<(), Error> {
    match resolved[index] {
        None => Err(Error::InvalidSignature),
        Some(signer) => if !participants.contains(signer) {
            Err(Error::InvalidSignature)
        } else if resolved.take(index).contains(Some(signer)) {
            Err(Error::DuplicateSignature)
        } else {
            Ok(())
        },
    }
}

/// Whether `index` is the first signature with a failing verdict.
pub open spec fn first_failure(
    participants: Seq<Seq<u8>>,
    resolved: Seq<Option<Seq<u8>>>,
    index: int,
) -> bool {
    &&& 0 <= index < resolved.len()
    &&& signer_verdict(participants, resolved, index) is Err
    &&& forall|earlier: int|
        0 <= earlier < index ==> signer_verdict(participants, resolved, earlier) is Ok
}

/// The outcome of going through the resolved signers in order: the verdict
/// on the first signature that fails, or success where none does.
pub open spec fn signers_outcome(
    participants: Seq<Seq<u8>>,
    resolved: Seq<Option<Seq<u8>>>,
) -> Result<(), Error> {
    if exists|index: int| first_failure(participants, resolved, index) {
        signer_verdict(
            participants,
            resolved,
            choose|index: int| first_failure(participants, resolved, index),
        )
    } else {
        Ok(())
    }
}

/// The outcome of verifying a key-generation result.
pub open spec fn keygen_outcome(result: DKGResultView) -> Result<(), Error> {
    if result.participants.len() == 0 {
        Err(Error::NoParticipantsFound)
    } else if result.signatures.len() == 0 {
        Err(Error::NoSignaturesFound)
    } else if result.signatures.len() <= result.threshold {
        Err(Error::NotEnoughSigners)
    } else {
        signers_outcome(result.participants, resolved_signers(result))
    }
}

/// Tries the participants in turn and returns the first under whose key
/// `signature` verifies.
fn find_verifying(digest: &[u8; 32], signature: &[u8], participants: &Vec<Vec<u8>>) -> (out:
    Option<Vec<u8>>)
    ensures
        signer_view(out) == first_verifying(digest@, signature@, byte_strings(participants@)),
{
    let ghost all = byte_strings(participants@);
    let mut i: usize = 0;
    assert(all.skip(0) =~= all);
    while i < participants.len()
        invariant
            i <= participants@.len(),
            all == byte_strings(participants@),
            first_verifying(digest@, signature@, all) == first_verifying(
                digest@,
                signature@,
                all.skip(i as int),
            ),
        decreases participants@.len() - i,
    {
        proof {
            assert(all.skip(i as int).drop_first() =~= all.skip(i + 1));
            assert(all.skip(i as int).first() == participants@[i as int]@);
        }
        if verify_signature(digest, signature, participants[i].as_slice()) {
            return Some(participants[i].clone());
        }
        i += 1;
    }
    None
}

/// Resolves the signer of one signature over `message_digest`.
pub fn resolve_signer(
    key_type: DkgKeyType,
    message_digest: &[u8; 32],
    signature: &[u8],
    participants: &Vec<Vec<u8>>,
) -> (out: Option<Vec<u8>>)
    ensures
        signer_view(out) == resolved_signer(
            key_type,
            message_digest@,
            signature@,
            byte_strings(participants@),
        ),
{
    match key_type {
        DkgKeyType::Ecdsa => match recover_signer(message_digest, signature) {
            Ok(key) => Some(key),
            Err(_) => None,
        },
        DkgKeyType::Schnorr => find_verifying(message_digest, signature, participants),
    }
}

/// Judges one resolved signer: it must be a participant and must not have
/// been counted before. A signer that passes is added to `counted`; on
/// failure `counted` stays as it was.
pub fn count_signer(
    participants: &Vec<Vec<u8>>,
    counted: &mut Vec<Vec<u8>>,
    resolved: Option<Vec<u8>>,
) -> (out: Result<(), Error>)
    ensures
        out == signer_step(
            byte_strings(participants@),
            byte_strings(old(counted)@),
            signer_view(resolved),
        ),
        out is Ok ==> byte_strings(final(counted)@) == byte_strings(old(counted)@).push(
            resolved.unwrap()@,
        ),
        out is Err ==> *final(counted) == *old(counted),
{
    match resolved {
        None => Err(Error::InvalidSignature),
        Some(signer) => {
            if !contains_bytes(participants, signer.as_slice()) {
                Err(Error::InvalidSignature)
            } else if contains_bytes(counted, signer.as_slice()) {
                Err(Error::DuplicateSignature)
            } else {
                counted.push(signer);
                assert(byte_strings(counted@) =~= byte_strings(old(counted)@).push(signer@));
                Ok(())
            }
        },
    }
}

/// With the signers of all earlier signatures counted, the step on a
/// resolved signer is the verdict on its signature.
proof fn lemma_step_is_verdict(
    participants: Seq<Seq<u8>>,
    resolved: Seq<Option<Seq<u8>>>,
    counted: Seq<Seq<u8>>,
    index: int,
)
    requires
        0 <= index < resolved.len(),
        counted.len() == index,
        forall|j: int| 0 <= j < index ==> resolved[j] == Some(counted[j]),
    ensures
        signer_step(participants, counted, resolved[index]) == signer_verdict(
            participants,
            resolved,
            index,
        ),
{
    if let Some(signer) = resolved[index] {
        let earlier = resolved.take(index);
        if counted.contains(signer) {
            let j = choose|j: int| 0 <= j < counted.len() && counted[j] == signer;
            assert(earlier[j] == Some(signer));
        }
        if earlier.contains(Some(signer)) {
            let j = choose|j: int| 0 <= j < earlier.len() && earlier[j] == Some(signer);
            assert(counted[j] == signer);
        }
    }
}

/// The outcome is the verdict on the first failing signature.
pub proof fn lemma_outcome_at_first_failure(
    participants: Seq<Seq<u8>>,
    resolved: Seq<Option<Seq<u8>>>,
    index: int,
)
    requires
        first_failure(participants, resolved, index),
    ensures
        signers_outcome(participants, resolved) == signer_verdict(participants, resolved, index),
{
    let chosen = choose|other: int| first_failure(participants, resolved, other);
    if chosen < index {
        assert(signer_verdict(participants, resolved, chosen) is Ok);
    } else if index < chosen {
        assert(signer_verdict(participants, resolved, index) is Ok);
    }
}

/// Verifies a key-generation result: the committee and the signatures must
/// not be empty, the signatures must outnumber the threshold, and each must
/// resolve to a participant of its own.
pub fn verify_keygen(result: &DKGResult) -> (out: Result<(), Error>)
    ensures
        out == keygen_outcome(result@),
        out is Ok <==> quorum_attested(result@),
{
    proof {
        lemma_keygen_success(result@);
    }
    if result.participants.len() == 0 {
        return Err(Error::NoParticipantsFound);
    }
    if result.signatures.len() == 0 {
        return Err(Error::NoSignaturesFound);
    }
    if result.signatures.len() <= result.threshold as usize {
        return Err(Error::NotEnoughSigners);
    }
    let ghost members = byte_strings(result.participants@);
    let ghost resolved = resolved_signers(result@);
    let digest = match digest_message(result.key_type, &result.key) {
        Some(digest) => digest,
        None => {
            proof {
                lemma_outcome_at_first_failure(members, resolved, 0);
            }
            return Err(Error::InvalidSignature);
        },
    };
    let mut counted: Vec<Vec<u8>> = Vec::new();
    let mut i: usize = 0;
    while i < result.signatures.len()
        invariant
            i <= result.signatures@.len(),
            result.participants@.len() > 0,
            result.signatures@.len() > result.threshold,
            byte_strings(counted@).len() == i,
            members == byte_strings(result.participants@),
            resolved == resolved_signers(result@),
            message_digest(result.key_type, result.key@) == Some(digest@),
            forall|j: int| 0 <= j < i ==> resolved[j] == Some(byte_strings(counted@)[j]),
            forall|j: int| 0 <= j < i ==> signer_verdict(members, resolved, j) is Ok,
        decreases result.signatures@.len() - i,
    {
        let signer = resolve_signer(
            result.key_type,
            &digest,
            result.signatures[i].as_slice(),
            &result.participants,
        );
        assert(signer_view(signer) == resolved[i as int]);
        proof {
            lemma_step_is_verdict(members, resolved, byte_strings(counted@), i as int);
        }
        match count_signer(&result.participants, &mut counted, signer) {
            Ok(()) => {},
            Err(error) => {
                proof {
                    lemma_outcome_at_first_failure(members, resolved, i as int);
                }
                return Err(error);
            },
        }
        i += 1;
    }
    Ok(())
}

} // verus!
