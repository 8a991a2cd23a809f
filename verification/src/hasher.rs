//! The digest that every signature binds: Keccak-256 over the canonical
//! encoding of the attested value.

use vstd::prelude::*;
use crate::types::DkgKeyType;

verus! {

/// The Keccak-256 digest of `data`, as `sp_io::hashing::keccak_256` computes
/// it.
pub uninterp spec fn keccak_256(data: Seq<u8>) -> Seq<u8>;

/// The longest byte string that has a length-prefixed encoding.
pub const MAX_PREFIXED_LEN: usize = 0xFFFF_FFFF;

/// The four little-endian bytes of a value below 2^32.
pub open spec fn le_bytes_4(value: nat) -> Seq<u8> {
    seq![
        (value % 0x100) as u8,
        (value / 0x100 % 0x100) as u8,
        (value / 0x1_0000 % 0x100) as u8,
        (value / 0x100_0000 % 0x100) as u8,
    ]
}

/// The compact encoding of a length below 2^32: the two low bits of the
/// first byte tell the width, the bits above them hold the length.
pub open spec fn compact_length(len: nat) -> Seq<u8> {
    if len < 0x40 {
        seq![(4 * len) as u8]
    } else if len < 0x4000 {
        seq![((4 * len + 1) % 0x100) as u8, ((4 * len + 1) / 0x100) as u8]
    } else if len < 0x4000_0000 {
        le_bytes_4(4 * len + 2)
    } else {
        seq![3u8] + le_bytes_4(len)
    }
}

/// The encoding of a byte string: its compact length, then its bytes.
pub open spec fn length_prefixed(payload: Seq<u8>) -> Seq<u8> {
    compact_length(payload.len()) + payload
}

/// Calls `sp_io::hashing::keccak_256`; the contract names its result.
#[verifier::external_body]
fn keccak_256_of(data: &[u8]) -> (out: [u8; 32])
    ensures
        out@ == keccak_256(data@),
{
    sp_io::hashing::keccak_256(data)
}

/// Calls `parity_scale_codec::Encode::encode` on a byte vector. The contract
/// claims that the result is the compact length followed by the bytes
/// themselves. The call panics on a longer vector, which `requires` leaves
/// out.
#[verifier::external_body]
fn scale_encode(payload: &Vec<u8>) -> (out: Vec<u8>)
    requires
        payload@.len() <= MAX_PREFIXED_LEN,
    ensures
        out@ == length_prefixed(payload@),
{
    parity_scale_codec::Encode::encode(payload)
}

/// Whether a value of `len` bytes has a canonical encoding under `key_type`.
pub open spec fn encodable(key_type: DkgKeyType, len: nat) -> bool {
    key_type == DkgKeyType::Ecdsa || len <= MAX_PREFIXED_LEN
}

/// The canonical encoding of an attested value. Under the recoverable
/// scheme the value is a fixed-width key, which encodes as its own bytes;
/// under the direct scheme it is a byte string, which encodes with its
/// length in front.
pub open spec fn canonical_encoding(key_type: DkgKeyType, payload: Seq<u8>) -> Seq<u8> {
    match key_type {
        DkgKeyType::Ecdsa => payload,
        DkgKeyType::Schnorr => length_prefixed(payload),
    }
}

/// The digest that a signature over `payload` binds, if `payload` has a
/// canonical encoding.
pub open spec fn message_digest(key_type: DkgKeyType, payload: Seq<u8>) -> Option<Seq<u8>> {
    if encodable(key_type, payload.len()) {
        Some(keccak_256(canonical_encoding(key_type, payload)))
    } else {
        None
    }
}

/// The Keccak-256 digest of `payload`.
pub fn digest(payload: &[u8]) -> (out: [u8; 32])
    ensures
        out@ == keccak_256(payload@),
{
    keccak_256_of(payload)
}

/// Encodes an attested value canonically, or returns `None` where the value
/// is too long to have an encoding.
pub fn encode_canonical(key_type: DkgKeyType, payload: &Vec<u8>) -> (out: Option<Vec<u8>>)
    ensures
        out is Some <==> encodable(key_type, payload@.len()),
        out matches Some(bytes) ==> bytes@ == canonical_encoding(key_type, payload@),
{
    match key_type {
        DkgKeyType::Ecdsa => Some(payload.clone()),
        DkgKeyType::Schnorr => {
            if payload.len() <= MAX_PREFIXED_LEN {
                Some(scale_encode(payload))
            } else {
                None
            }
        },
    }
}

/// Computes the digest that a signature over `payload` binds.
pub fn digest_message(key_type: DkgKeyType, payload: &Vec<u8>) -> (out: Option<[u8; 32]>)
    ensures
        out is Some <==> message_digest(key_type, payload@) is Some,
        out matches Some(hash) ==> message_digest(key_type, payload@) == Some(hash@),
{
    match encode_canonical(key_type, payload) {
        Some(bytes) => Some(digest(bytes.as_slice())),
        None => None,
    }
}

} // verus!
