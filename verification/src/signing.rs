//! Phase two: a signature produced under a shared key is accepted when it
//! attributes to exactly the claimed signing key.

use vstd::prelude::*;
use crate::bytes::bytes_equal;
use crate::hasher::{canonical_encoding, digest_message, encodable, keccak_256, message_digest};
use crate::scheme::{
    directly_verified,
    recover_signer,
    recovered_signer,
    recovery_view,
    verify_signature,
    SchemeError,
};
use crate::types::{DKGSignatureResult, DKGSignatureResultView, DkgKeyType, Error};

verus! {

/// What a recovered key means for a signing result: a failed recovery makes
/// the signature invalid, a key other than the claimed one is a mismatch.
pub open spec fn recovered_key_outcome(
    recovered: Result<Seq<u8>, SchemeError>,
    signing_key: Seq<u8>,
) -> Result<(), Error> {
    match recovered {
        Err(_) => Err(Error::InvalidSignature),
        Ok(key) => if key == signing_key {
            Ok(())
        } else {
            Err(Error::SigningKeyMismatch)
        },
    }
}

/// What the direct check means for a signing result.
pub open spec fn direct_check_outcome(verified: bool) -> Result<(), Error> {
    if verified {
        Ok(())
    } else {
        Err(Error::InvalidSignature)
    }
}

/// The outcome of verifying a signing result. Data that has no digest
/// cannot have been signed.
pub open spec fn signing_outcome(result: DKGSignatureResultView) -> Result<(), Error> {
    match message_digest(result.key_type, result.data) {
        None => Err(Error::InvalidSignature),
        Some(digest) => match result.key_type {
            DkgKeyType::Ecdsa => recovered_key_outcome(
                recovered_signer(digest, result.signature),
                result.signing_key,
            ),
            DkgKeyType::Schnorr => direct_check_outcome(
                directly_verified(digest, result.signature, result.signing_key),
            ),
        },
    }
}

/// Whether the check of the result's scheme holds: the key recovered from
/// the signature is the signing key, or the signature verifies under the
/// signing key, in both cases over the digest of the encoded data.
pub open spec fn correctly_signed(result: DKGSignatureResultView) -> bool {
    let digest = keccak_256(canonical_encoding(result.key_type, result.data));
    &&& encodable(result.key_type, result.data.len())
    &&& match result.key_type {
        DkgKeyType::Ecdsa => recovered_signer(digest, result.signature) == Ok::<
            Seq<u8>,
            SchemeError,
        >(result.signing_key),
        DkgKeyType::Schnorr => directly_verified(digest, result.signature, result.signing_key),
    }
}

/// A signing result is accepted exactly when the check of its scheme holds.
pub proof fn lemma_signing_success(result: DKGSignatureResultView)
    ensures
        signing_outcome(result) is Ok <==> correctly_signed(result),
{
}

/// Judges the key recovered from a signature against the claimed signing
/// key.
pub fn check_recovered_key(recovered: &Result<Vec<u8>, SchemeError>, signing_key: &[u8]) -> (out:
    Result<(), Error>)
    ensures
        out == recovered_key_outcome(recovery_view(*recovered), signing_key@),
{
    match recovered {
        Err(_) => Err(Error::InvalidSignature),
        Ok(key) => {
            if bytes_equal(key.as_slice(), signing_key) {
                Ok(())
            } else {
                Err(Error::SigningKeyMismatch)
            }
        },
    }
}

/// Judges the answer of the direct check.
pub fn check_direct(verified: bool) -> (out: Result<(), Error>)
    ensures
        out == direct_check_outcome(verified),
{
    if verified {
        Ok(())
    } else {
        Err(Error::InvalidSignature)
    }
}

/// Verifies a signing result: the signature, taken over the digest of the
/// encoded data, must attribute to the claimed signing key.
pub fn verify_signing(result: &DKGSignatureResult) -> (out: Result<(), Error>)
    ensures
        out == signing_outcome(result@),
        out is Ok <==> correctly_signed(result@),
{
    let digest = match digest_message(result.key_type, &result.data) {
        Some(digest) => digest,
        None => {
            return Err(Error::InvalidSignature);
        },
    };
    match result.key_type {
        DkgKeyType::Ecdsa => {
            let recovered = recover_signer(&digest, result.signature.as_slice());
            check_recovered_key(&recovered, result.signing_key.as_slice())
        },
        DkgKeyType::Schnorr => {
            let verified = verify_signature(
                &digest,
                result.signature.as_slice(),
                result.signing_key.as_slice(),
            );
            check_direct(verified)
        },
    }
}

} // verus!
