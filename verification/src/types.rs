//! The values a verification call takes and the outcomes it reports.
//!
//! Every value here is plain data owned by the caller. Contracts speak of
//! the views defined below, in which each byte string is a `Seq<u8>`.

use vstd::prelude::*;

verus! {

/// The signature scheme under which a committee produced a result.
#[derive(Clone, Copy, Debug, PartialEq, Eq, Structural)]
pub enum DkgKeyType {
    /// A recoverable curve: the signer's key is derived from signature and
    /// message.
    Ecdsa,
    /// A curve without recovery: a signature is checked against a claimed
    /// key.
    Schnorr,
}

/// Why a result was rejected.
#[derive(Clone, Copy, Debug, PartialEq, Eq, Structural)]
pub enum Error {
    /// A key-generation result names no participants.
    NoParticipantsFound,
    /// A key-generation result carries no signatures.
    NoSignaturesFound,
    /// A key-generation result carries no more signatures than its
    /// threshold.
    NotEnoughSigners,
    /// Two signatures of a key-generation result come from one signer.
    DuplicateSignature,
    /// A signature is malformed, attributes to nobody, or attributes to a
    /// key outside the committee.
    InvalidSignature,
    /// A recoverable signature attributes to a key other than the claimed
    /// signing key.
    SigningKeyMismatch,
}

/// The outcome of a key-generation round: a shared key and the members'
/// attestations of it.
#[derive(Clone, Debug, PartialEq, Eq)]
pub struct DKGResult {
    /// The scheme of the shared key and of every attestation.
    pub key_type: DkgKeyType,
    /// The claimed shared public key.
    pub key: Vec<u8>,
    /// The public keys of the committee members, in the order given.
    pub participants: Vec<Vec<u8>>,
    /// The members' signatures over the shared key, in the order given.
    pub signatures: Vec<Vec<u8>>,
    /// The largest number of members that may fail to attest.
    pub threshold: u8,
}

/// One signature produced under a shared key.
#[derive(Clone, Debug, PartialEq, Eq)]
pub struct DKGSignatureResult {
    /// The scheme of the signing key.
    pub key_type: DkgKeyType,
    /// The signature over the digest of `data`.
    pub signature: Vec<u8>,
    /// The message that was signed, as it stands and not yet hashed.
    pub data: Vec<u8>,
    /// The public key the signature is claimed to come from.
    pub signing_key: Vec<u8>,
}

/// A result submitted for verification.
#[derive(Clone, Debug, PartialEq, Eq)]
pub enum JobResult {
    /// The outcome of a key-generation round.
    DKGPhaseOne(DKGResult),
    /// A signature produced under a shared key.
    DKGPhaseTwo(DKGSignatureResult),
}

/// The byte strings that a list holds, each as a sequence.
pub open spec fn byte_strings(list: Seq<Vec<u8>>) -> Seq<Seq<u8>> {
    Seq::new(list.len(), |i: int| list[i]@)
}

/// What a `DKGResult` holds, as mathematical values.
pub struct DKGResultView {
    pub key_type: DkgKeyType,
    pub key: Seq<u8>,
    pub participants: Seq<Seq<u8>>,
    pub signatures: Seq<Seq<u8>>,
    pub threshold: nat,
}

/// What a `DKGSignatureResult` holds, as mathematical values.
pub struct DKGSignatureResultView {
    pub key_type: DkgKeyType,
    pub signature: Seq<u8>,
    pub data: Seq<u8>,
    pub signing_key: Seq<u8>,
}

/// What a `JobResult` holds, as mathematical values.
pub enum JobResultView {
    DKGPhaseOne(DKGResultView),
    DKGPhaseTwo(DKGSignatureResultView),
}

impl View for DKGResult {
    type V = DKGResultView;

    open spec fn view(&self) -> DKGResultView {
        DKGResultView {
            key_type: self.key_type,
            key: self.key@,
            participants: byte_strings(self.participants@),
            signatures: byte_strings(self.signatures@),
            threshold: self.threshold as nat,
        }
    }
}

impl View for DKGSignatureResult {
    type V = DKGSignatureResultView;

    open spec fn view(&self) -> DKGSignatureResultView {
        DKGSignatureResultView {
            key_type: self.key_type,
            signature: self.signature@,
            data: self.data@,
            signing_key: self.signing_key@,
        }
    }
}

impl View for JobResult {
    type V = JobResultView;

    open spec fn view(&self) -> JobResultView {
        match *self {
            JobResult::DKGPhaseOne(result) => JobResultView::DKGPhaseOne(result@),
            JobResult::DKGPhaseTwo(result) => JobResultView::DKGPhaseTwo(result@),
        }
    }
}

} // verus!
