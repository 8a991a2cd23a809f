use dkg_verifier::{verify, DKGResult, DKGSignatureResult, DkgKeyType, Error, JobResult};
use parity_scale_codec::Encode;
use sp_core::crypto::{ByteArray, KeyTypeId};
use sp_core::{ecdsa, sr25519};
use sp_io::crypto::{ecdsa_generate, ecdsa_sign_prehashed, sr25519_generate, sr25519_sign};
use sp_io::hashing::keccak_256;
use sp_keystore::{testing::MemoryKeystore, KeystoreExt};

const ROLE_KEY_TYPE: KeyTypeId = KeyTypeId(*b"role");

fn new_test_ext() -> sp_io::TestExternalities {
	let mut ext = sp_io::TestExternalities::default();
	ext.register_extension(KeystoreExt::new(MemoryKeystore::new()));
	ext
}

fn mock_pub_key_ecdsa() -> ecdsa::Public {
	ecdsa_generate(ROLE_KEY_TYPE, None)
}

fn mock_pub_key_sr25519() -> sr25519::Public {
	sr25519_generate(ROLE_KEY_TYPE, None)
}

fn mock_signature_ecdsa(pub_key: ecdsa::Public, role_key: ecdsa::Public) -> Vec<u8> {
	let msg = role_key.encode();
	let hash = keccak_256(&msg);
	let signature: ecdsa::Signature =
		ecdsa_sign_prehashed(ROLE_KEY_TYPE, &pub_key, &hash).unwrap();
	signature.encode()
}

fn mock_signature_sr25519(pub_key: sr25519::Public, role_key: sr25519::Public) -> Vec<u8> {
	let msg = role_key.to_vec().encode();
	let hash = keccak_256(&msg);
	let signature: sr25519::Signature = sr25519_sign(ROLE_KEY_TYPE, &pub_key, &hash).unwrap();
	// sanity check
	assert!(sp_io::crypto::sr25519_verify(&signature, &hash, &pub_key));
	signature.encode()
}

#[test]
fn dkg_key_verifcation_works_for_ecdsa() {
	new_test_ext().execute_with(|| {
		let job_to_verify = DKGResult {
			key_type: DkgKeyType::Ecdsa,
			key: vec![],
			participants: vec![],
			signatures: vec![],
			threshold: 2,
		};

		// should fail for empty participants
		assert_eq!(
			verify(JobResult::DKGPhaseOne(job_to_verify)),
			Err(Error::NoParticipantsFound)
		);

		let job_to_verify = DKGResult {
			key_type: DkgKeyType::Ecdsa,
			key: vec![],
			participants: vec![mock_pub_key_ecdsa().to_raw_vec()],
			signatures: vec![],
			threshold: 2,
		};

		// should fail for empty keys/signatures
		assert_eq!(verify(JobResult::DKGPhaseOne(job_to_verify)), Err(Error::NoSignaturesFound));

		// setup key/signature
		let pub_key = mock_pub_key_ecdsa();
		let signature = mock_signature_ecdsa(pub_key, pub_key);

		let job_to_verify = DKGResult {
			key_type: DkgKeyType::Ecdsa,
			key: vec![],
			participants: vec![mock_pub_key_ecdsa().to_raw_vec()],
			signatures: vec![signature.clone()],
			threshold: 1,
		};

		// should fail for less than threshold
		assert_eq!(verify(JobResult::DKGPhaseOne(job_to_verify)), Err(Error::NotEnoughSigners));

		let job_to_verify = DKGResult {
			key_type: DkgKeyType::Ecdsa,
			key: pub_key.0.to_vec(),
			participants: vec![pub_key.to_raw_vec()],
			signatures: vec![signature.clone(), signature.clone()],
			threshold: 1,
		};

		// should fail for duplicate signers
		assert_eq!(verify(JobResult::DKGPhaseOne(job_to_verify)), Err(Error::DuplicateSignature));

		// works correctly when all params as expected
		let participant_one = mock_pub_key_ecdsa();
		let participant_two = mock_pub_key_ecdsa();
		let signature_one = mock_signature_ecdsa(participant_one, participant_one);
		let signature_two = mock_signature_ecdsa(participant_two, participant_one);
		let job_to_verify = DKGResult {
			key_type: DkgKeyType::Ecdsa,
			key: participant_one.to_raw_vec(),
			participants: vec![
				participant_one.to_raw_vec(),
				participant_two.to_raw_vec(),
			],
			signatures: vec![signature_two, signature_one],
			threshold: 1,
		};

		assert_eq!(verify(JobResult::DKGPhaseOne(job_to_verify)), Ok(()));
	});
}

#[test]
fn dkg_key_verifcation_works_for_schnorr() {
	new_test_ext().execute_with(|| {
		let job_to_verify = DKGResult {
			key_type: DkgKeyType::Schnorr,
			key: mock_pub_key_sr25519().to_vec(),
			participants: vec![],
			signatures: vec![],
			threshold: 2,
		};

		// should fail for empty participants
		assert_eq!(
			verify(JobResult::DKGPhaseOne(job_to_verify)),
			Err(Error::NoParticipantsFound)
		);

		let job_to_verify = DKGResult {
			key_type: DkgKeyType::Schnorr,
			key: vec![],
			participants: vec![mock_pub_key_sr25519().to_raw_vec()],
			signatures: vec![],
			threshold: 2,
		};

		// should fail for empty keys/signatures
		assert_eq!(verify(JobResult::DKGPhaseOne(job_to_verify)), Err(Error::NoSignaturesFound));

		// setup key/signature
		let pub_key = mock_pub_key_sr25519();
		let signature = mock_signature_sr25519(pub_key, pub_key);

		let job_to_verify = DKGResult {
			key_type: DkgKeyType::Schnorr,
			key: pub_key.to_vec(),
			participants: vec![mock_pub_key_sr25519().to_raw_vec()],
			signatures: vec![signature.clone()],
			threshold: 1,
		};

		// should fail for less than threshold
		assert_eq!(verify(JobResult::DKGPhaseOne(job_to_verify)), Err(Error::NotEnoughSigners));

		let job_to_verify = DKGResult {
			key_type: DkgKeyType::Schnorr,
			key: pub_key.to_vec(),
			participants: vec![pub_key.to_raw_vec()],
			signatures: vec![signature.clone(), signature.clone()],
			threshold: 1,
		};

		// should fail for duplicate signers
		assert_eq!(verify(JobResult::DKGPhaseOne(job_to_verify)), Err(Error::DuplicateSignature));

		// works correctly when all params as expected
		let participant_one = mock_pub_key_sr25519();
		let participant_two = mock_pub_key_sr25519();
		let signature_one = mock_signature_sr25519(participant_one, participant_one);
		let signature_two = mock_signature_sr25519(participant_two, participant_one);
		let job_to_verify = DKGResult {
			key_type: DkgKeyType::Schnorr,
			key: participant_one.to_raw_vec(),
			participants: vec![
				participant_one.to_raw_vec(),
				participant_two.to_raw_vec(),
			],
			signatures: vec![signature_two, signature_one],
			threshold: 1,
		};

		assert_eq!(verify(JobResult::DKGPhaseOne(job_to_verify)), Ok(()));
	});
}

#[test]
fn dkg_signature_verifcation_works_ecdsa() {
	new_test_ext().execute_with(|| {
		// setup key/signature
		let pub_key = mock_pub_key_ecdsa();
		let signature = mock_signature_ecdsa(pub_key, mock_pub_key_ecdsa());

		let job_to_verify: DKGSignatureResult = DKGSignatureResult {
			key_type: DkgKeyType::Ecdsa,
			signature,
			data: pub_key.to_raw_vec(),
			signing_key: pub_key.to_raw_vec(),
		};

		// should fail for invalid keys
		assert_eq!(verify(JobResult::DKGPhaseTwo(job_to_verify)), Err(Error::SigningKeyMismatch));

		let signature = mock_signature_ecdsa(pub_key, pub_key);
		let job_to_verify: DKGSignatureResult = DKGSignatureResult {
			key_type: DkgKeyType::Ecdsa,
			signature,
			data: pub_key.to_raw_vec(),
			signing_key: pub_key.to_raw_vec(),
		};

		// should work with correct params
		assert_eq!(verify(JobResult::DKGPhaseTwo(job_to_verify)), Ok(()));
	});
}

#[test]
fn dkg_signature_verifcation_works_schnorr() {
	new_test_ext().execute_with(|| {
		// setup key/signature
		let pub_key = mock_pub_key_sr25519();
		let signature = mock_signature_sr25519(pub_key, mock_pub_key_sr25519());

		let job_to_verify: DKGSignatureResult = DKGSignatureResult {
			key_type: DkgKeyType::Schnorr,
			signature,
			data: pub_key.to_raw_vec(),
			signing_key: pub_key.to_raw_vec(),
		};

		// should fail for invalid keys
		assert_eq!(verify(JobResult::DKGPhaseTwo(job_to_verify)), Err(Error::InvalidSignature));

		let signature = mock_signature_sr25519(pub_key, pub_key);
		let job_to_verify: DKGSignatureResult = DKGSignatureResult {
			key_type: DkgKeyType::Schnorr,
			signature,
			data: pub_key.to_raw_vec(),
			signing_key: pub_key.to_raw_vec(),
		};

		// should work with correct params
		assert_eq!(verify(JobResult::DKGPhaseTwo(job_to_verify)), Ok(()));
	});
}
