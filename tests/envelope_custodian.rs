use shielder_scheduler::custodian::{
    check_challenge, CustodianError, LocalCustodian, RemoteCustodian, VerificationError,
};
use shielder_scheduler::envelope::{open_with_dek, seal, seal_with, OpenError, SealError};
use shielder_scheduler::protocol::EncryptionEnvelope;

const BITS: usize = 1024;

fn custodian() -> LocalCustodian {
    LocalCustodian::generate(BITS).expect("key generation")
}

#[test]
fn seal_then_open_returns_payload() {
    let c = custodian();
    let payload = br#"{"account_id":"0x1","memo":"0x"}"#.to_vec();
    let env = seal(&payload, &c.public_key()).unwrap();
    assert_eq!(env.iv.len(), 12);
    assert_eq!(env.auth_tag.len(), 16);
    assert_eq!(env.encrypted_payload.len(), payload.len());
    assert_ne!(env.encrypted_payload, payload);
    assert_eq!(c.decrypt_payload(&env).unwrap(), payload);
}

#[test]
fn empty_payload_round_trips() {
    let c = custodian();
    let env = seal(&[], &c.public_key()).unwrap();
    assert!(env.encrypted_payload.is_empty());
    assert_eq!(c.decrypt_payload(&env).unwrap(), Vec::<u8>::new());
}

#[test]
fn tampering_is_detected() {
    let c = custodian();
    let payload = b"withdraw 100 to 0xabc".to_vec();
    let env = seal(&payload, &c.public_key()).unwrap();
    for field in 0..3 {
        let mut t = env.clone();
        match field {
            0 => t.encrypted_payload[3] ^= 0x01,
            1 => t.auth_tag[15] ^= 0x80,
            _ => t.iv[0] ^= 0x10,
        }
        assert!(matches!(c.decrypt_payload(&t), Err(OpenError::DecryptionFailed)));
    }
}

#[test]
fn wrong_key_length_is_refused_before_decryption() {
    let payload = b"hello".to_vec();
    let dek = [3u8; 32];
    let iv = [5u8; 12];
    let env = seal_with(&payload, &dek, &iv, vec![1]).unwrap();
    assert_eq!(open_with_dek(Ok(dek.to_vec()), &env).unwrap(), payload);
    let short = open_with_dek(Ok(vec![3u8; 16]), &env);
    assert!(matches!(short, Err(OpenError::InvalidKeyLength)));
    let long = open_with_dek(Ok(vec![3u8; 33]), &env);
    assert!(matches!(long, Err(OpenError::InvalidKeyLength)));
    let wrong = open_with_dek(Ok(vec![4u8; 32]), &env);
    assert!(matches!(wrong, Err(OpenError::DecryptionFailed)));
    let mut bad_iv = env.clone();
    bad_iv.iv.push(0);
    assert!(matches!(open_with_dek(Ok(dek.to_vec()), &bad_iv), Err(OpenError::InvalidIvLength)));
    let mut short_tag = env.clone();
    short_tag.auth_tag.pop();
    assert!(matches!(open_with_dek(Ok(dek.to_vec()), &short_tag), Err(OpenError::DecryptionFailed)));
    let mut moved_tag = env.clone();
    let first = moved_tag.auth_tag.remove(0);
    moved_tag.encrypted_payload.push(first);
    assert!(matches!(open_with_dek(Ok(dek.to_vec()), &moved_tag), Err(OpenError::DecryptionFailed)));
    let unwrap = open_with_dek(Err(CustodianError::DecryptFailed), &env);
    assert!(matches!(unwrap, Err(OpenError::Unwrap(CustodianError::DecryptFailed))));
}

#[test]
fn seal_with_known_vector() {
    // AES-256-GCM, all-zero key and iv, empty plaintext: the tag alone.
    let env = seal_with(&[], &[0u8; 32], &[0u8; 12], vec![]).unwrap();
    assert!(env.encrypted_payload.is_empty());
    assert_eq!(
        env.auth_tag,
        vec![
            0x53, 0x0f, 0x8a, 0xfb, 0xc7, 0x45, 0x36, 0xb9, 0xa9, 0x63, 0xb4, 0xf1, 0xc4, 0xcb,
            0x73, 0x8b
        ]
    );
}

#[test]
fn seal_to_garbage_key_fails() {
    let r = seal(b"x", &[1, 2, 3]);
    assert!(matches!(r, Err(SealError::KeyWrap)));
}

#[test]
fn own_key_verifies_and_other_key_does_not() {
    let c = custodian();
    assert_eq!(c.verify_public_key(&c.public_key()), Ok(()));
    let other = custodian();
    assert_eq!(c.verify_public_key(&other.public_key()), Err(VerificationError::DecryptFailed));
    assert_eq!(c.verify_public_key(&[0u8; 10]), Err(VerificationError::UnusableKey));
}

#[test]
fn challenge_verdicts() {
    assert_eq!(check_challenge(&[1, 2], Ok(vec![1, 2])), Ok(()));
    assert_eq!(check_challenge(&[1, 2], Ok(vec![1, 3])), Err(VerificationError::Mismatch));
    assert_eq!(
        check_challenge(&[1, 2], Err(CustodianError::DecryptFailed)),
        Err(VerificationError::DecryptFailed)
    );
}

#[test]
fn invalid_private_key_is_refused() {
    assert!(matches!(LocalCustodian::new(vec![0u8; 8]), Err(CustodianError::InvalidPrivateKey)));
}

#[test]
fn remote_custodian_arguments_and_output() {
    let r = RemoteCustodian {
        key_id: "k1".to_string(),
        region: "eu-west-1".to_string(),
        encryption_algorithm: "RSAES_OAEP_SHA_256".to_string(),
    };
    assert_eq!(
        r.decrypt_args(&[0xde, 0xad]),
        vec![
            "decrypt",
            "--region=eu-west-1",
            "--key-id=k1",
            "--ciphertext=3q0=",
            "--encryption-algorithm=RSAES_OAEP_SHA_256"
        ]
    );
    assert_eq!(r.public_key_args(), vec!["get-public-key", "--region=eu-west-1", "--key-id=k1"]);
    assert_eq!(RemoteCustodian::read_decrypt_output(true, b"  aGVsbG8=\n").unwrap(), b"hello");
    assert_eq!(
        RemoteCustodian::read_decrypt_output(true, b"not base64!"),
        Err(CustodianError::MalformedOutput)
    );
    assert_eq!(
        RemoteCustodian::read_decrypt_output(false, b"aGVsbG8="),
        Err(CustodianError::RemoteFailed)
    );
}

#[test]
fn envelope_duplicate_keeps_parts() {
    let e = EncryptionEnvelope {
        encrypted_payload: vec![1],
        encrypted_dek: vec![2],
        iv: vec![3],
        auth_tag: vec![4],
    };
    let d = e.duplicate();
    assert_eq!(
        (d.encrypted_payload, d.encrypted_dek, d.iv, d.auth_tag),
        (vec![1], vec![2], vec![3], vec![4])
    );
}
