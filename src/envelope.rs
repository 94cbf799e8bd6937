//! Envelope encryption of withdrawal payloads: a fresh AES-256-GCM key per
//! payload, wrapped under the enclave's public key.

use aes_gcm::aead::{Aead, KeyInit};
use rand::RngCore;
use vstd::prelude::*;

use crate::custodian::{
    rsa_encrypt, rsa_key_made, rsa_oaep_decrypt, rsa_public_key_der, CustodianError,
};
use crate::protocol::{EncryptionEnvelope, EnvelopeView};

verus! {

/// The length of a data-encryption key.
pub const KEY_LEN: usize = 32;

/// The length of an initialisation vector.
pub const IV_LEN: usize = 12;

/// The length of an authentication tag.
pub const TAG_LEN: usize = 16;

/// The longest plaintext the cipher takes, 2^36 bytes.
pub open spec fn max_plaintext_len() -> nat {
    0x10_0000_0000
}

/// What AES-256-GCM, as the `aes-gcm` crate computes it, makes of `plaintext`
/// under `key` and `iv` with no associated data: the ciphertext followed by
/// the tag. `Aead::encrypt` hands it out for plaintexts up to 2^36 bytes.
pub uninterp spec fn aes256gcm_seal(key: Seq<u8>, iv: Seq<u8>, plaintext: Seq<u8>) -> Seq<u8>;

/// `env` holds `payload` sealed under `dek`: its ciphertext and tag together
/// are exactly what the cipher makes of `payload` under `dek` and its iv.
pub open spec fn sealed_as(env: EnvelopeView, dek: Seq<u8>, payload: Seq<u8>) -> bool {
    &&& dek.len() == KEY_LEN
    &&& env.iv.len() == IV_LEN
    &&& env.auth_tag.len() == TAG_LEN
    &&& env.encrypted_payload + env.auth_tag == aes256gcm_seal(dek, env.iv, payload)
}

/// Relies on `aes_gcm::Aes256Gcm` through `Aead::encrypt`: the ciphertext with
/// the 16-byte tag appended; it fails only on a plaintext over 2^36 bytes.
#[verifier::external_body]
fn aes_encrypt(key: &[u8], iv: &[u8], plaintext: &[u8]) -> (r: Result<Vec<u8>, ()>)
    requires
        key@.len() == KEY_LEN,
        iv@.len() == IV_LEN,
    ensures
        r is Ok <==> plaintext@.len() <= max_plaintext_len(),
        r is Ok ==> r->Ok_0@ == aes256gcm_seal(key@, iv@, plaintext@) && r->Ok_0@.len()
            == plaintext@.len() + TAG_LEN,
{
    let cipher = aes_gcm::Aes256Gcm::new(aes_gcm::Key::<aes_gcm::Aes256Gcm>::from_slice(key));
    cipher.encrypt(aes_gcm::Nonce::from_slice(iv), plaintext).map_err(|_| ())
}

/// Relies on `aes_gcm::Aes256Gcm` through `Aead::decrypt`: it accepts a
/// ciphertext only when its tag is the one the key computes for it, so what
/// it returns seals back to the ciphertext; and it returns the plaintext of
/// whatever `Aead::encrypt` made.
#[verifier::external_body]
fn aes_decrypt(key: &[u8], iv: &[u8], ciphertext: &[u8]) -> (r: Result<Vec<u8>, ()>)
    requires
        key@.len() == KEY_LEN,
        iv@.len() == IV_LEN,
    ensures
        r is Ok ==> ciphertext@ == aes256gcm_seal(
            key@,
            iv@,
            r->Ok_0@,
        ),
        forall|p: Seq<u8>|
            p.len() <= max_plaintext_len() && ciphertext@ == #[trigger] aes256gcm_seal(
                key@,
                iv@,
                p,
            ) ==> r is Ok && r->Ok_0@ == p,
{
    let cipher = aes_gcm::Aes256Gcm::new(aes_gcm::Key::<aes_gcm::Aes256Gcm>::from_slice(key));
    cipher.decrypt(aes_gcm::Nonce::from_slice(iv), ciphertext).map_err(|_| ())
}

/// Relies on `rand::thread_rng` and `RngCore::fill_bytes`: `n` random bytes.
#[verifier::external_body]
pub(crate) fn random_bytes(n: usize) -> (r: Vec<u8>)
    requires
        n <= 4096,
    ensures
        r@.len() == n,
{
    let mut bytes = vec![0u8; n];
    rand::thread_rng().fill_bytes(&mut bytes);
    bytes
}

/// Why sealing failed.
#[derive(Debug)]
pub enum SealError {
    /// The payload is longer than the cipher takes.
    PayloadTooLong,
    /// The data-encryption key could not be wrapped under the public key.
    KeyWrap,
}

/// Why opening an envelope failed.
#[derive(Debug)]
pub enum OpenError {
    /// The custodian could not unwrap the data-encryption key.
    Unwrap(CustodianError),
    /// The unwrapped key is not [`KEY_LEN`] bytes long.
    InvalidKeyLength,
    /// The iv is not [`IV_LEN`] bytes long.
    InvalidIvLength,
    /// The tag is not [`TAG_LEN`] bytes long, or the ciphertext and tag do
    /// not check out under the key.
    DecryptionFailed,
}

/// Seals `payload` under the key `dek` and the iv `iv`; `encrypted_dek` is the
/// key already wrapped for the enclave.
pub fn seal_with(payload: &[u8], dek: &[u8], iv: &[u8], encrypted_dek: Vec<u8>) -> (r: Result<
    EncryptionEnvelope,
    SealError,
>)
    requires
        dek@.len() == KEY_LEN,
        iv@.len() == IV_LEN,
    ensures
        r is Ok <==> payload@.len() <= max_plaintext_len(),
        r is Err ==> r->Err_0 is PayloadTooLong,
        r is Ok ==> sealed_as(r->Ok_0@, dek@, payload@) && payload@.len() <= max_plaintext_len()
            && r->Ok_0.iv@ == iv@
            && r->Ok_0.encrypted_dek@ == encrypted_dek@,
{
    let mut ciphertext = match aes_encrypt(dek, iv, payload) {
        Ok(c) => c,
        Err(_) => return Err(SealError::PayloadTooLong),
    };
    let ghost whole = ciphertext@;
    let at = ciphertext.len() - TAG_LEN;
    let auth_tag = ciphertext.split_off(at);
    let mut iv_copy: Vec<u8> = Vec::new();
    let mut i: usize = 0;
    while i < iv.len()
        invariant
            i <= iv@.len(),
            iv_copy@ == iv@.subrange(0, i as int),
        decreases iv@.len() - i,
    {
        iv_copy.push(iv[i]);
        i = i + 1;
    }
    assert(iv_copy@ =~= iv@);
    let env = EncryptionEnvelope {
        encrypted_payload: ciphertext,
        encrypted_dek,
        iv: iv_copy,
        auth_tag,
    };
    assert(env.encrypted_payload@ + env.auth_tag@ =~= whole);
    Ok(env)
}

/// Seals `payload` for the enclave whose public key (SubjectPublicKeyInfo DER)
/// is `public_key`, under a fresh random key and iv.
pub fn seal(payload: &[u8], public_key: &[u8]) -> (r: Result<EncryptionEnvelope, SealError>)
    ensures
        payload@.len() > max_plaintext_len() ==> r is Err,
        r is Ok ==> payload@.len() <= max_plaintext_len() && exists|dek: Seq<u8>|
            #[trigger] sealed_as(r->Ok_0@, dek, payload@) && forall|sk: Seq<u8>|
                rsa_key_made(sk) && #[trigger] rsa_public_key_der(sk) == Some(public_key@)
                    ==> rsa_oaep_decrypt(
                    sk,
                    r->Ok_0.encrypted_dek@,
                ) == Some(dek),
{
    let dek = random_bytes(KEY_LEN);
    let iv = random_bytes(IV_LEN);
    let encrypted_dek = match rsa_encrypt(public_key, dek.as_slice()) {
        Ok(w) => w,
        Err(_) => return Err(SealError::KeyWrap),
    };
    let r = seal_with(payload, dek.as_slice(), iv.as_slice(), encrypted_dek);
    r
}

/// Opens `envelope` with the key the custodian unwrapped from it. A key of
/// the wrong length is refused before any decryption. A success returns a
/// plaintext that seals back to exactly the envelope's ciphertext and tag;
/// an envelope sealed under the unwrapped key always opens to its payload.
pub fn open_with_dek(unwrapped: Result<Vec<u8>, CustodianError>, envelope: &EncryptionEnvelope) -> (r:
    Result<Vec<u8>, OpenError>)
    ensures
        unwrapped is Err ==> r is Err && r->Err_0 == OpenError::Unwrap(unwrapped->Err_0),
        unwrapped is Ok && unwrapped->Ok_0@.len() != KEY_LEN ==> r is Err && r->Err_0 is InvalidKeyLength,
        unwrapped is Ok && unwrapped->Ok_0@.len() == KEY_LEN && envelope.iv@.len() != IV_LEN ==> r is Err
            && r->Err_0 is InvalidIvLength,
        unwrapped is Ok && unwrapped->Ok_0@.len() == KEY_LEN && envelope.iv@.len() == IV_LEN ==> (r is Ok
            || r->Err_0 is DecryptionFailed),
        unwrapped is Ok && unwrapped->Ok_0@.len() == KEY_LEN && envelope.iv@.len() == IV_LEN
            && envelope.auth_tag@.len() != TAG_LEN ==> r is Err && r->Err_0 is DecryptionFailed,
        r is Ok ==> unwrapped is Ok && sealed_as(envelope@, unwrapped->Ok_0@, r->Ok_0@),
        forall|p: Seq<u8>|
            unwrapped is Ok && p.len() <= max_plaintext_len() && #[trigger] sealed_as(
                envelope@,
                unwrapped->Ok_0@,
                p,
            ) ==> r is Ok && r->Ok_0@ == p,
{
    let dek = match unwrapped {
        Ok(d) => d,
        Err(e) => return Err(OpenError::Unwrap(e)),
    };
    if dek.len() != KEY_LEN {
        return Err(OpenError::InvalidKeyLength);
    }
    if envelope.iv.len() != IV_LEN {
        return Err(OpenError::InvalidIvLength);
    }
    if envelope.auth_tag.len() != TAG_LEN {
        return Err(OpenError::DecryptionFailed);
    }
    let mut ciphertext = envelope.encrypted_payload.clone();
    let mut tag = envelope.auth_tag.clone();
    ciphertext.append(&mut tag);
    match aes_decrypt(dek.as_slice(), envelope.iv.as_slice(), ciphertext.as_slice()) {
        Ok(p) => Ok(p),
        Err(_) => Err(OpenError::DecryptionFailed),
    }
}

/// Two envelopes under one key and iv whose ciphertext-and-tag differ cannot
/// both hold the same payload: a tampered envelope never opens to the
/// payload that was sealed.
pub proof fn lemma_tampered_envelope_loses_payload(
    env: EnvelopeView,
    tampered: EnvelopeView,
    dek: Seq<u8>,
    payload: Seq<u8>,
)
    requires
        sealed_as(env, dek, payload),
        tampered.iv == env.iv,
        tampered.encrypted_payload + tampered.auth_tag != env.encrypted_payload + env.auth_tag,
    ensures
        !sealed_as(tampered, dek, payload),
{
}

} // verus!
