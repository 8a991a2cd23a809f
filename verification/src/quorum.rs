//! What the acceptance of a key-generation result means, and that it does
//! not depend on the order in which the signatures or the participants are
//! given.

use vstd::prelude::*;
use vstd::seq_lib::{to_multiset_build, to_multiset_contains, to_multiset_len, to_multiset_remove};
use crate::hasher::message_digest;
use crate::keygen::{
    attesting_signer,
    first_failure,
    first_verifying,
    keygen_outcome,
    lemma_outcome_at_first_failure,
    resolved_signers,
    signer_verdict,
    signers_outcome,
};
use crate::scheme::directly_verified;
use crate::types::{DKGResultView, DkgKeyType};

verus! {

/// Whether a signature resolved to a signer and that signer is a
/// participant.
pub open spec fn is_member(participants: Seq<Seq<u8>>, resolved: Option<Seq<u8>>) -> bool {
    match resolved {
        Some(signer) => participants.contains(signer),
        None => false,
    }
}

/// Whether every resolved signer is a participant and no two are the same.
pub open spec fn distinct_members(
    participants: Seq<Seq<u8>>,
    resolved: Seq<Option<Seq<u8>>>,
) -> bool {
    &&& forall|i: int| 0 <= i < resolved.len() ==> is_member(participants, #[trigger] resolved[i])
    &&& resolved.no_duplicates()
}

/// Whether a quorum of the committee attests the shared key: more
/// signatures than the threshold, each resolving to a participant of its
/// own.
pub open spec fn quorum_attested(result: DKGResultView) -> bool {
    &&& result.participants.len() > 0
    &&& result.signatures.len() > result.threshold
    &&& distinct_members(result.participants, resolved_signers(result))
}

/// Where some signature fails, some signature is the first to fail.
proof fn lemma_least_failure(
    participants: Seq<Seq<u8>>,
    resolved: Seq<Option<Seq<u8>>>,
    index: int,
)
    requires
        0 <= index < resolved.len(),
        signer_verdict(participants, resolved, index) is Err,
    ensures
        exists|first: int| first_failure(participants, resolved, first),
    decreases index,
{
    if forall|earlier: int|
        0 <= earlier < index ==> signer_verdict(participants, resolved, earlier) is Ok {
        assert(first_failure(participants, resolved, index));
    } else {
        let earlier = choose|earlier: int|
            0 <= earlier < index && !(signer_verdict(participants, resolved, earlier) is Ok);
        lemma_least_failure(participants, resolved, earlier);
    }
}

/// Going through the resolved signers succeeds exactly when each is a
/// participant and no two are the same.
pub proof fn lemma_signers_accepted(participants: Seq<Seq<u8>>, resolved: Seq<Option<Seq<u8>>>)
    ensures
        signers_outcome(participants, resolved) is Ok <==> distinct_members(participants, resolved),
{
    if signers_outcome(participants, resolved) is Ok {
        assert forall|i: int| 0 <= i < resolved.len() implies signer_verdict(
            participants,
            resolved,
            i,
        ) is Ok by {
            if signer_verdict(participants, resolved, i) is Err {
                lemma_least_failure(participants, resolved, i);
            }
        }
        assert forall|i: int, j: int|
            0 <= i < resolved.len() && 0 <= j < resolved.len() && i != j implies resolved[i]
            != resolved[j] by {
            if i < j {
                assert(signer_verdict(participants, resolved, j) is Ok);
                assert(resolved.take(j)[i] == resolved[i]);
            } else {
                assert(signer_verdict(participants, resolved, i) is Ok);
                assert(resolved.take(i)[j] == resolved[j]);
            }
        }
        assert forall|i: int| 0 <= i < resolved.len() implies is_member(
            participants,
            #[trigger] resolved[i],
        ) by {
            assert(signer_verdict(participants, resolved, i) is Ok);
        }
    }
    if distinct_members(participants, resolved) {
        assert forall|i: int| 0 <= i < resolved.len() implies signer_verdict(
            participants,
            resolved,
            i,
        ) is Ok by {
            let earlier = resolved.take(i);
            if earlier.contains(resolved[i]) {
                let j = choose|j: int| 0 <= j < earlier.len() && earlier[j] == resolved[i];
                assert(resolved[j] == resolved[i]);
            }
        }
    }
}

/// A key-generation result is accepted exactly when a quorum attests its
/// key: acceptance implies more signatures than the threshold, each
/// resolving to a distinct participant, and nothing else is rejected.
pub proof fn lemma_keygen_success(result: DKGResultView)
    ensures
        keygen_outcome(result) is Ok <==> quorum_attested(result),
{
    lemma_signers_accepted(result.participants, resolved_signers(result));
}

/// Sequences that hold the same items equally often still do so after a
/// function is applied to each item.
proof fn lemma_map_keeps_multiset<A, B>(left: Seq<A>, right: Seq<A>, f: spec_fn(A) -> B)
    requires
        left.to_multiset() == right.to_multiset(),
    ensures
        left.map_values(f).to_multiset() == right.map_values(f).to_multiset(),
    decreases left.len(),
{
    to_multiset_len(left);
    to_multiset_len(right);
    if left.len() == 0 {
        assert(left.map_values(f) =~= right.map_values(f));
    } else {
        let item = left.last();
        assert(left[left.len() - 1] == item);
        to_multiset_contains(left, item);
        to_multiset_contains(right, item);
        let k = choose|k: int| 0 <= k < right.len() && right[k] == item;
        let left_rest = left.drop_last();
        let right_rest = right.remove(k);
        assert(left =~= left_rest.push(item));
        to_multiset_build(left_rest, item);
        to_multiset_remove(right, k);
        assert(left_rest.to_multiset() =~= left.to_multiset().remove(item));
        assert(left_rest.to_multiset() =~= right_rest.to_multiset());
        lemma_map_keeps_multiset(left_rest, right_rest, f);
        let left_image = left.map_values(f);
        let right_image = right.map_values(f);
        assert(left_image =~= left_rest.map_values(f).push(f(item)));
        assert(right_image.remove(k) =~= right_rest.map_values(f));
        to_multiset_build(left_rest.map_values(f), f(item));
        to_multiset_remove(right_image, k);
        assert(right_image[k] == f(item));
        to_multiset_contains(right_image, f(item));
        assert(left_image.to_multiset() =~= right_image.to_multiset());
    }
}

/// Whether resolved signers are distinct participants depends only on
/// which signers there are and how often each occurs.
proof fn lemma_distinct_members_unordered(
    participants: Seq<Seq<u8>>,
    left: Seq<Option<Seq<u8>>>,
    right: Seq<Option<Seq<u8>>>,
)
    requires
        left.to_multiset() == right.to_multiset(),
        distinct_members(participants, left),
    ensures
        distinct_members(participants, right),
{
    assert forall|i: int| 0 <= i < right.len() implies is_member(
        participants,
        #[trigger] right[i],
    ) by {
        to_multiset_contains(right, right[i]);
        to_multiset_contains(left, right[i]);
        let j = choose|j: int| 0 <= j < left.len() && left[j] == right[i];
        assert(is_member(participants, left[j]));
    }
    left.lemma_multiset_has_no_duplicates();
    right.lemma_multiset_has_no_duplicates_conv();
}

/// Whether a result is rejected for its shape, before any signature is
/// looked at.
pub open spec fn misshapen(result: DKGResultView) -> bool {
    result.participants.len() == 0 || result.signatures.len() <= result.threshold
}

/// The verdict on a key-generation result does not depend on the order of
/// its signatures: two results that differ only in that order are both
/// accepted or both rejected, and a rejection for the shape of the result
/// names the same reason. Which signature fails first does depend on the
/// order, and with it the reason given for a failing signature.
pub proof fn lemma_signature_order_irrelevant(first: DKGResultView, second: DKGResultView)
    requires
        first.key_type == second.key_type,
        first.key == second.key,
        first.participants == second.participants,
        first.threshold == second.threshold,
        first.signatures.to_multiset() == second.signatures.to_multiset(),
    ensures
        keygen_outcome(first) is Ok <==> keygen_outcome(second) is Ok,
        misshapen(first) <==> misshapen(second),
        misshapen(first) ==> keygen_outcome(first) == keygen_outcome(second),
{
    let resolve = |signature: Seq<u8>|
        attesting_signer(first.key_type, first.key, first.participants, signature);
    let left = resolved_signers(first);
    let right = resolved_signers(second);
    assert(left =~= first.signatures.map_values(resolve));
    assert(right =~= second.signatures.map_values(resolve));
    lemma_map_keeps_multiset(first.signatures, second.signatures, resolve);
    to_multiset_len(first.signatures);
    to_multiset_len(second.signatures);
    lemma_keygen_success(first);
    lemma_keygen_success(second);
    if distinct_members(first.participants, left) {
        lemma_distinct_members_unordered(first.participants, left, right);
    }
    if distinct_members(first.participants, right) {
        lemma_distinct_members_unordered(first.participants, right, left);
    }
}

/// Whether `signature` attests the key of `result` under `key` by the
/// direct check.
pub open spec fn verifies_under(result: DKGResultView, signature: Seq<u8>, key: Seq<u8>) -> bool {
    match message_digest(result.key_type, result.key) {
        Some(digest) => directly_verified(digest, signature, key),
        None => false,
    }
}

/// Whether no signature of `result` verifies under two different
/// participants.
pub open spec fn one_key_per_signature(result: DKGResultView) -> bool {
    forall|k: int, i: int, j: int|
        0 <= k < result.signatures.len() && 0 <= i < result.participants.len() && 0 <= j
            < result.participants.len() && verifies_under(
            result,
            result.signatures[k],
            result.participants[i],
        ) && verifies_under(result, result.signatures[k], result.participants[j])
            ==> result.participants[i] == result.participants[j]
}

/// The first verifying participant is a participant under whose key the
/// signature verifies; there is none only where the signature verifies
/// under no participant.
proof fn lemma_first_verifying(digest: Seq<u8>, signature: Seq<u8>, participants: Seq<Seq<u8>>)
    ensures
        match first_verifying(digest, signature, participants) {
            Some(signer) => participants.contains(signer) && directly_verified(
                digest,
                signature,
                signer,
            ),
            None => forall|i: int|
                0 <= i < participants.len() ==> !directly_verified(
                    digest,
                    signature,
                    #[trigger] participants[i],
                ),
        },
    decreases participants.len(),
{
    if participants.len() > 0 {
        if directly_verified(digest, signature, participants.first()) {
            assert(participants[0] == participants.first());
        } else {
            let rest = participants.drop_first();
            lemma_first_verifying(digest, signature, rest);
            match first_verifying(digest, signature, rest) {
                Some(signer) => {
                    let k = choose|k: int| 0 <= k < rest.len() && rest[k] == signer;
                    assert(participants[k + 1] == signer);
                },
                None => {
                    assert forall|i: int| 0 <= i < participants.len() implies !directly_verified(
                        digest,
                        signature,
                        #[trigger] participants[i],
                    ) by {
                        if i > 0 {
                            assert(rest[i - 1] == participants[i]);
                        }
                    }
                },
            }
        }
    }
}

/// The outcome of a key-generation result does not depend on the order of
/// its participants, nor on how often each is listed: two results whose
/// committees hold the same keys have the same outcome. Under the direct
/// scheme this is stated of results in which no signature verifies under
/// two different participants.
pub proof fn lemma_participant_order_irrelevant(first: DKGResultView, second: DKGResultView)
    requires
        first.key_type == second.key_type,
        first.key == second.key,
        first.signatures == second.signatures,
        first.threshold == second.threshold,
        first.participants.to_set() == second.participants.to_set(),
        first.key_type == DkgKeyType::Schnorr ==> one_key_per_signature(first),
    ensures
        keygen_outcome(first) == keygen_outcome(second),
{
    let left = resolved_signers(first);
    let right = resolved_signers(second);
    assert forall|key: Seq<u8>| first.participants.contains(key) == second.participants.contains(
        key,
    ) by {
        assert(first.participants.to_set().contains(key) == first.participants.contains(key));
        assert(second.participants.to_set().contains(key) == second.participants.contains(key));
    }
    if first.participants.len() > 0 {
        assert(first.participants.contains(first.participants[0]));
    }
    if second.participants.len() > 0 {
        assert(second.participants.contains(second.participants[0]));
    }
    assert forall|k: int| 0 <= k < left.len() implies left[k] == right[k] by {
        if let Some(digest) = message_digest(first.key_type, first.key) {
            if first.key_type == DkgKeyType::Schnorr {
                let signature = first.signatures[k];
                lemma_first_verifying(digest, signature, first.participants);
                lemma_first_verifying(digest, signature, second.participants);
                if let Some(one) = first_verifying(digest, signature, first.participants) {
                    assert(second.participants.contains(one));
                    let at = choose|at: int|
                        0 <= at < second.participants.len() && second.participants[at] == one;
                    assert(directly_verified(digest, signature, second.participants[at]));
                    let other = first_verifying(digest, signature, second.participants).unwrap();
                    assert(first.participants.contains(other));
                    let i = choose|i: int|
                        0 <= i < first.participants.len() && first.participants[i] == one;
                    let j = choose|j: int|
                        0 <= j < first.participants.len() && first.participants[j] == other;
                    assert(verifies_under(first, first.signatures[k], first.participants[i]));
                    assert(verifies_under(first, first.signatures[k], first.participants[j]));
                } else if let Some(other) = first_verifying(
                    digest,
                    signature,
                    second.participants,
                ) {
                    assert(first.participants.contains(other));
                    let j = choose|j: int|
                        0 <= j < first.participants.len() && first.participants[j] == other;
                    assert(directly_verified(digest, signature, first.participants[j]));
                }
            }
        }
    }
    assert(left =~= right);
    assert forall|index: int| 0 <= index < left.len() implies signer_verdict(
        first.participants,
        left,
        index,
    ) == signer_verdict(second.participants, left, index) by {}
    if exists|index: int| first_failure(first.participants, left, index) {
        let index = choose|index: int| first_failure(first.participants, left, index);
        assert(first_failure(second.participants, left, index));
        lemma_outcome_at_first_failure(first.participants, left, index);
        lemma_outcome_at_first_failure(second.participants, left, index);
    } else if exists|index: int| first_failure(second.participants, left, index) {
        let index = choose|index: int| first_failure(second.participants, left, index);
        assert(first_failure(first.participants, left, index));
    }
}

} // verus!
