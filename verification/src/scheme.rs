//! The two signature schemes, each with the one operation it can perform:
//! the recoverable scheme derives the signer's key from a signature, the
//! direct scheme checks a signature against a claimed key.

use vstd::prelude::*;
use crate::bytes::to_array;

verus! {

/// Why a recoverable signature yielded no key.
#[derive(Clone, Copy, Debug, PartialEq, Eq, Structural)]
pub enum SchemeError {
    /// The values R or S of the signature are out of range.
    BadRS,
    /// The recovery value V of the signature is out of range.
    BadV,
    /// The signature has the wrong length, or no key signs the message with
    /// it.
    BadSignature,
}

/// The length of a recoverable signature: R, S and the recovery value V.
pub const ECDSA_SIGNATURE_LEN: usize = 65;

/// The length of a signature of the direct scheme.
pub const SCHNORR_SIGNATURE_LEN: usize = 64;

/// The length of a public key of the direct scheme.
pub const SCHNORR_KEY_LEN: usize = 32;

/// What `sp_io::crypto::secp256k1_ecdsa_recover_compressed` returns for a
/// 65-byte signature and a 32-byte digest: the compressed public key that
/// signed, or the reason why there is none.
pub uninterp spec fn secp256k1_recovered(signature: Seq<u8>, digest: Seq<u8>) -> Result<
    Seq<u8>,
    SchemeError,
>;

/// What `sp_io::crypto::sr25519_verify` returns for a 64-byte signature, a
/// message and a 32-byte public key.
pub uninterp spec fn sr25519_verified(
    signature: Seq<u8>,
    message: Seq<u8>,
    public_key: Seq<u8>,
) -> bool;

/// The view of a recovered key or of the failure to recover one.
pub open spec fn recovery_view(recovered: Result<Vec<u8>, SchemeError>) -> Result<
    Seq<u8>,
    SchemeError,
> {
    match recovered {
        Ok(key) => Ok(key@),
        Err(error) => Err(error),
    }
}

/// The length of a compressed public key of the recoverable scheme.
pub const ECDSA_KEY_LEN: usize = 33;

/// Calls `sp_io::crypto::secp256k1_ecdsa_recover_compressed`; the contract
/// names its result and claims that a recovered key has 33 bytes, the width
/// of the array that the call returns. The error of the outside crate is
/// carried over variant by variant.
#[verifier::external_body]
fn secp256k1_recover(signature: &[u8; 65], digest: &[u8; 32]) -> (out: Result<Vec<u8>, SchemeError>)
    ensures
        recovery_view(out) == secp256k1_recovered(signature@, digest@),
        out matches Ok(key) ==> key@.len() == ECDSA_KEY_LEN,
{
    match sp_io::crypto::secp256k1_ecdsa_recover_compressed(signature, digest) {
        Ok(key) => Ok(key.to_vec()),
        Err(sp_io::EcdsaVerifyError::BadRS) => Err(SchemeError::BadRS),
        Err(sp_io::EcdsaVerifyError::BadV) => Err(SchemeError::BadV),
        Err(sp_io::EcdsaVerifyError::BadSignature) => Err(SchemeError::BadSignature),
    }
}

/// Calls `sp_io::crypto::sr25519_verify` on the signature and the key as
/// the outside crate types them; the contract names its result.
#[verifier::external_body]
fn sr25519_verify(signature: &[u8; 64], message: &[u8], public_key: &[u8; 32]) -> (out: bool)
    ensures
        out == sr25519_verified(signature@, message@, public_key@),
{
    sp_io::crypto::sr25519_verify(
        &sp_core::sr25519::Signature::from_raw(*signature),
        message,
        &sp_core::sr25519::Public::from_raw(*public_key),
    )
}

/// The key that a recoverable signature over `digest` attributes to: none
/// for a signature that is not 65 bytes long, else what the curve yields.
pub open spec fn recovered_signer(digest: Seq<u8>, signature: Seq<u8>) -> Result<
    Seq<u8>,
    SchemeError,
> {
    if signature.len() == ECDSA_SIGNATURE_LEN {
        secp256k1_recovered(signature, digest)
    } else {
        Err(SchemeError::BadSignature)
    }
}

/// Whether `signature` is a signature of the direct scheme over `digest`
/// under `claimed_key`. A signature or a key of the wrong length verifies
/// nothing.
pub open spec fn directly_verified(
    digest: Seq<u8>,
    signature: Seq<u8>,
    claimed_key: Seq<u8>,
) -> bool {
    &&& signature.len() == SCHNORR_SIGNATURE_LEN
    &&& claimed_key.len() == SCHNORR_KEY_LEN
    &&& sr25519_verified(signature, digest, claimed_key)
}

/// Derives the compressed public key that signed `message_digest`.
pub fn recover_signer(message_digest: &[u8; 32], signature: &[u8]) -> (out: Result<
    Vec<u8>,
    SchemeError,
>)
    ensures
        recovery_view(out) == recovered_signer(message_digest@, signature@),
        out matches Ok(key) ==> key@.len() == ECDSA_KEY_LEN,
{
    match to_array::<65>(signature) {
        Some(raw) => secp256k1_recover(&raw, message_digest),
        None => Err(SchemeError::BadSignature),
    }
}

/// Checks a signature of the direct scheme against a claimed key.
pub fn verify_signature(message_digest: &[u8; 32], signature: &[u8], claimed_key: &[u8]) -> (out:
    bool)
    ensures
        out == directly_verified(message_digest@, signature@, claimed_key@),
{
    match to_array::<64>(signature) {
        Some(raw_signature) => match to_array::<32>(claimed_key) {
            Some(raw_key) => sr25519_verify(&raw_signature, message_digest.as_slice(), &raw_key),
            None => false,
        },
        None => false,
    }
}

} // verus!
