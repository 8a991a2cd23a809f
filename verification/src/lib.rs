//! Verification of the results of a distributed key-generation protocol.
//!
//! A committee produces a shared public key, which its members attest with
//! their signatures, and later signatures under that key. `verify` decides
//! whether such a result is structurally sound and correctly signed. It is a
//! pure function of the bytes handed to it.
//!
//! - `types`: the results, the error kinds, and their views.
//! - `hasher`: the canonical encoding of an attested value and its digest.
//! - `scheme`: key recovery and direct verification, one per scheme.
//! - `keygen`: the verifier of key-generation results.
//! - `quorum`: what acceptance of a key-generation result means, proved.
//! - `signing`: the verifier of signing results.
//! - `dispatch`: the entry point.
//! - `bytes`: helpers on byte strings.

pub mod bytes;
pub mod dispatch;
pub mod hasher;
pub mod keygen;
pub mod quorum;
pub mod scheme;
pub mod signing;
pub mod types;

pub use dispatch::verify;
pub use keygen::verify_keygen;
pub use scheme::SchemeError;
pub use signing::verify_signing;
pub use types::{DKGResult, DKGSignatureResult, DkgKeyType, Error, JobResult};
