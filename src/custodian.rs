//! The key custodian: the enclave's RSA key pair, decryption under it, and
//! the challenge that proves a public key is the custodian's own.

use base64::Engine;
use rsa::pkcs8::{DecodePrivateKey, DecodePublicKey, EncodePrivateKey, EncodePublicKey};
use vstd::prelude::*;

use crate::envelope::{open_with_dek, random_bytes, OpenError};
use crate::protocol::EncryptionEnvelope;

verus! {

/// The smallest RSA key size the custodian generates.
pub const MIN_KEY_BITS: usize = 1024;

/// The largest RSA key size the custodian generates.
pub const MAX_KEY_BITS: usize = 4096;

/// The length of the challenge that checks a public key.
pub const CHALLENGE_LEN: usize = 32;

/// Why the custodian could not do what was asked.
#[derive(Debug, PartialEq, Eq, Structural)]
pub enum CustodianError {
    /// The private key is not a valid PKCS#8 RSA key.
    InvalidPrivateKey,
    /// A new key pair could not be made.
    KeyGeneration,
    /// The ciphertext was malformed or not made for this key.
    DecryptFailed,
    /// The remote key service reported a failure.
    RemoteFailed,
    /// The remote key service's answer was not base64 text.
    MalformedOutput,
}

/// Why a candidate public key was not confirmed.
#[derive(Debug, PartialEq, Eq, Structural)]
pub enum VerificationError {
    /// Nothing could be encrypted to the candidate key.
    UnusableKey,
    /// The custodian could not decrypt the challenge.
    DecryptFailed,
    /// The custodian decrypted the challenge to other bytes.
    Mismatch,
}

/// What RSA-OAEP with SHA-256 decryption under the PKCS#8 DER key
/// `private_key` makes of `ciphertext`, or None where it fails.
pub uninterp spec fn rsa_oaep_decrypt(private_key: Seq<u8>, ciphertext: Seq<u8>) -> Option<Seq<u8>>;

/// The SubjectPublicKeyInfo DER encoding of the public half of the PKCS#8 DER
/// key `private_key`, or None where that key does not parse.
pub uninterp spec fn rsa_public_key_der(private_key: Seq<u8>) -> Option<Seq<u8>>;

/// The PKCS#8 DER key `private_key` is one that `rsa::RsaPrivateKey::new`
/// made: its factors are primes. Keys read from elsewhere need not be: the
/// crate's key check does not test the factors for primality.
pub uninterp spec fn rsa_key_made(private_key: Seq<u8>) -> bool;

/// Relies on `rsa::RsaPrivateKey::from_pkcs8_der` and `RsaPrivateKey::decrypt`
/// with `Oaep::new::<Sha256>()`, which uses no randomness.
#[verifier::external_body]
fn rsa_decrypt(private_key: &[u8], ciphertext: &[u8]) -> (r: Result<Vec<u8>, ()>)
    ensures
        r is Ok <==> rsa_oaep_decrypt(private_key@, ciphertext@) is Some,
        r is Ok ==> r->Ok_0@ == rsa_oaep_decrypt(private_key@, ciphertext@)->Some_0,
{
    let key = match rsa::RsaPrivateKey::from_pkcs8_der(private_key) {
        Ok(k) => k,
        Err(_) => return Err(()),
    };
    key.decrypt(rsa::Oaep::new::<rsa::sha2::Sha256>(), ciphertext).map_err(|_| ())
}

/// Relies on `rsa::RsaPrivateKey::from_pkcs8_der`, `to_public_key` and
/// `EncodePublicKey::to_public_key_der`.
#[verifier::external_body]
fn rsa_public_der(private_key: &[u8]) -> (r: Result<Vec<u8>, ()>)
    ensures
        r is Ok <==> rsa_public_key_der(private_key@) is Some,
        r is Ok ==> r->Ok_0@ == rsa_public_key_der(private_key@)->Some_0,
{
    let key = match rsa::RsaPrivateKey::from_pkcs8_der(private_key) {
        Ok(k) => k,
        Err(_) => return Err(()),
    };
    key.to_public_key().to_public_key_der().map(|d| d.to_vec()).map_err(|_| ())
}

/// Relies on `rsa::RsaPublicKey::from_public_key_der` and
/// `RsaPublicKey::encrypt` with `Oaep::new::<Sha256>()` and `rand::thread_rng`;
/// the ciphertext is random, but every one decrypts back to the message under
/// a key made by `RsaPrivateKey::new` whose public half is `public_key`.
#[verifier::external_body]
pub(crate) fn rsa_encrypt(public_key: &[u8], message: &[u8]) -> (r: Result<Vec<u8>, ()>)
    ensures
        r is Ok ==> forall|sk: Seq<u8>|
            rsa_key_made(sk) && #[trigger] rsa_public_key_der(sk) == Some(public_key@) ==> rsa_oaep_decrypt(
                sk,
                r->Ok_0@,
            ) == Some(message@),
{
    let key = match rsa::RsaPublicKey::from_public_key_der(public_key) {
        Ok(k) => k,
        Err(_) => return Err(()),
    };
    key.encrypt(&mut rand::thread_rng(), rsa::Oaep::new::<rsa::sha2::Sha256>(), message).map_err(
        |_| (),
    )
}

/// Relies on `rsa::RsaPrivateKey::new` with `rand::thread_rng` and
/// `EncodePrivateKey::to_pkcs8_der`; the key is random. Sizes from 1024 to
/// 4096 bits are the ones the crate accepts in reasonable time.
#[verifier::external_body]
fn rsa_generate(bits: usize) -> (r: Result<Vec<u8>, ()>)
    requires
        MIN_KEY_BITS <= bits <= MAX_KEY_BITS,
    ensures
        r is Ok ==> rsa_key_made(r->Ok_0@),
{
    let key = match rsa::RsaPrivateKey::new(&mut rand::thread_rng(), bits) {
        Ok(k) => k,
        Err(_) => return Err(()),
    };
    key.to_pkcs8_der().map(|d| d.as_bytes().to_vec()).map_err(|_| ())
}

/// Whether two byte strings are equal.
fn bytes_equal(a: &[u8], b: &[u8]) -> (r: bool)
    ensures
        r <==> a@ == b@,
{
    if a.len() != b.len() {
        return false;
    }
    let mut i: usize = 0;
    while i < a.len()
        invariant
            a@.len() == b@.len(),
            i <= a@.len(),
            forall|k: int| 0 <= k < i ==> a@[k] == b@[k],
        decreases a@.len() - i,
    {
        if a[i] != b[i] {
            return false;
        }
        i = i + 1;
    }
    assert(a@ =~= b@);
    true
}

/// The verdict on a challenge: the key is confirmed exactly when the
/// custodian decrypted the challenge's ciphertext back to the challenge.
pub fn check_challenge(challenge: &[u8], decrypted: Result<Vec<u8>, CustodianError>) -> (r: Result<
    (),
    VerificationError,
>)
    ensures
        r is Ok <==> decrypted is Ok && decrypted->Ok_0@ == challenge@,
        decrypted is Err ==> r == Err::<(), VerificationError>(VerificationError::DecryptFailed),
        decrypted is Ok && decrypted->Ok_0@ != challenge@ ==> r == Err::<(), VerificationError>(
            VerificationError::Mismatch,
        ),
{
    match decrypted {
        Err(_) => Err(VerificationError::DecryptFailed),
        Ok(d) => {
            if bytes_equal(d.as_slice(), challenge) {
                Ok(())
            } else {
                Err(VerificationError::Mismatch)
            }
        },
    }
}

/// A challenge for a candidate public key: random bytes, and those bytes
/// encrypted to the candidate.
#[derive(Debug)]
pub struct Challenge {
    pub challenge: Vec<u8>,
    pub ciphertext: Vec<u8>,
}

/// Draws [`CHALLENGE_LEN`] random bytes and encrypts them to `candidate`
/// (SubjectPublicKeyInfo DER) with RSA-OAEP and SHA-256.
pub fn make_challenge(candidate: &[u8]) -> (r: Result<Challenge, VerificationError>)
    ensures
        r is Ok ==> r->Ok_0.challenge@.len() == CHALLENGE_LEN,
        r is Ok ==> forall|sk: Seq<u8>|
            rsa_key_made(sk) && #[trigger] rsa_public_key_der(sk) == Some(candidate@) ==> rsa_oaep_decrypt(
                sk,
                r->Ok_0.ciphertext@,
            ) == Some(r->Ok_0.challenge@),
        r is Err ==> r->Err_0 == VerificationError::UnusableKey,
{
    let challenge = random_bytes(CHALLENGE_LEN);
    match rsa_encrypt(candidate, challenge.as_slice()) {
        Ok(ciphertext) => Ok(Challenge { challenge, ciphertext }),
        Err(_) => Err(VerificationError::UnusableKey),
    }
}

/// A custodian that holds its private key in process memory, for builds
/// without attestation.
pub struct LocalCustodian {
    private_key: Vec<u8>,
    public_key: Vec<u8>,
}

impl LocalCustodian {
    /// The PKCS#8 DER private key.
    pub closed spec fn private_key_der(&self) -> Seq<u8> {
        self.private_key@
    }

    /// The SubjectPublicKeyInfo DER public key.
    pub closed spec fn public_key_der(&self) -> Seq<u8> {
        self.public_key@
    }

    /// The challenge of [`LocalCustodian::verify_public_key`] went through for
    /// `candidate`: some ciphertext decrypts under the custodian's key to
    /// [`CHALLENGE_LEN`] bytes, and every key made by the rsa crate whose
    /// public half is `candidate` decrypts it to those same bytes.
    pub open spec fn confirms(&self, candidate: Seq<u8>) -> bool {
        exists|ct: Seq<u8>|
            #[trigger] rsa_oaep_decrypt(self.private_key_der(), ct) is Some && rsa_oaep_decrypt(
                self.private_key_der(),
                ct,
            )->Some_0.len() == CHALLENGE_LEN && forall|sk: Seq<u8>|
                rsa_key_made(sk) && #[trigger] rsa_public_key_der(sk) == Some(candidate)
                    ==> rsa_oaep_decrypt(sk, ct) == rsa_oaep_decrypt(self.private_key_der(), ct)
    }

    /// The public key belongs to the private key.
    pub closed spec fn wf(&self) -> bool {
        rsa_public_key_der(self.private_key@) == Some(self.public_key@)
    }

    /// A custodian for the PKCS#8 DER key `private_key`.
    pub fn new(private_key: Vec<u8>) -> (r: Result<LocalCustodian, CustodianError>)
        ensures
            r is Ok <==> rsa_public_key_der(private_key@) is Some,
            r is Err ==> r->Err_0 == CustodianError::InvalidPrivateKey,
            r is Ok ==> r->Ok_0.wf() && r->Ok_0.private_key_der() == private_key@
                && r->Ok_0.public_key_der() == rsa_public_key_der(private_key@)->Some_0,
    {
        match rsa_public_der(private_key.as_slice()) {
            Ok(public_key) => Ok(LocalCustodian { private_key, public_key }),
            Err(_) => Err(CustodianError::InvalidPrivateKey),
        }
    }

    /// A custodian for a fresh random key of `bits` bits.
    pub fn generate(bits: usize) -> (r: Result<LocalCustodian, CustodianError>)
        requires
            MIN_KEY_BITS <= bits <= MAX_KEY_BITS,
        ensures
            r is Ok ==> r->Ok_0.wf() && rsa_key_made(r->Ok_0.private_key_der())
                && rsa_public_key_der(r->Ok_0.private_key_der()) == Some(r->Ok_0.public_key_der()),
    {
        match rsa_generate(bits) {
            Ok(private_key) => LocalCustodian::new(private_key),
            Err(_) => Err(CustodianError::KeyGeneration),
        }
    }

    /// The public key, as SubjectPublicKeyInfo DER.
    pub fn public_key(&self) -> (r: Vec<u8>)
        ensures
            r@ == self.public_key_der(),
            self.wf() ==> rsa_public_key_der(self.private_key_der()) == Some(r@),
    {
        self.public_key.clone()
    }

    /// Decrypts a value encrypted to the custodian's public key.
    pub fn decrypt(&self, ciphertext: &[u8]) -> (r: Result<Vec<u8>, CustodianError>)
        ensures
            r is Ok <==> rsa_oaep_decrypt(self.private_key_der(), ciphertext@) is Some,
            r is Ok ==> r->Ok_0@ == rsa_oaep_decrypt(self.private_key_der(), ciphertext@)->Some_0,
            r is Err ==> r->Err_0 == CustodianError::DecryptFailed,
    {
        match rsa_decrypt(self.private_key.as_slice(), ciphertext) {
            Ok(p) => Ok(p),
            Err(_) => Err(CustodianError::DecryptFailed),
        }
    }

    /// Opens an envelope: unwraps its key with [`LocalCustodian::decrypt`]
    /// and opens it with [`open_with_dek`].
    pub fn decrypt_payload(&self, envelope: &EncryptionEnvelope) -> (r: Result<Vec<u8>, OpenError>)
        ensures
            ({
                let u = rsa_oaep_decrypt(self.private_key_der(), envelope.encrypted_dek@);
                &&& u is None ==> r is Err && r->Err_0 == OpenError::Unwrap(
                    CustodianError::DecryptFailed,
                )
                &&& u is Some && u->Some_0.len() != crate::envelope::KEY_LEN ==> r is Err
                    && r->Err_0 is InvalidKeyLength
                &&& forall|p: Seq<u8>|
                    u is Some && p.len() <= crate::envelope::max_plaintext_len()
                        && #[trigger] crate::envelope::sealed_as(envelope@, u->Some_0, p) ==> r is Ok
                        && r->Ok_0@ == p
                &&& r is Ok ==> u is Some && crate::envelope::sealed_as(
                    envelope@,
                    u->Some_0,
                    r->Ok_0@,
                )
            }),
    {
        let unwrapped = self.decrypt(envelope.encrypted_dek.as_slice());
        open_with_dek(unwrapped, envelope)
    }

    /// The key to answer a public-key request with: the custodian's own, once
    /// a candidate that came with the request has been confirmed as that key.
    pub fn public_key_for(&self, candidate: &Option<Vec<u8>>) -> (r: Result<Vec<u8>, VerificationError>)
        ensures
            candidate is None ==> r is Ok,
            candidate is Some && r is Ok ==> self.confirms(candidate->Some_0@),
            self.wf() && rsa_key_made(self.private_key_der()) && candidate is Some
                && candidate->Some_0@ == self.public_key_der() ==> r is Ok || r == Err::<
                Vec<u8>,
                VerificationError,
            >(VerificationError::UnusableKey),
            r is Ok ==> r->Ok_0@ == self.public_key_der(),
    {
        match candidate {
            None => Ok(self.public_key()),
            Some(c) => match self.verify_public_key(c.as_slice()) {
                Ok(()) => Ok(self.public_key()),
                Err(e) => Err(e),
            },
        }
    }

    /// Checks that the custodian holds the private half of `candidate`: a
    /// random challenge encrypted to `candidate` must decrypt back to itself.
    pub fn verify_public_key(&self, candidate: &[u8]) -> (r: Result<(), VerificationError>)
        ensures
            r is Ok ==> self.confirms(candidate@),
            self.wf() && rsa_key_made(self.private_key_der()) && candidate@ == self.public_key_der()
                ==> r is Ok || r == Err::<
                (),
                VerificationError,
            >(VerificationError::UnusableKey),
    {
        let Challenge { challenge, ciphertext } = match make_challenge(candidate) {
            Ok(c) => c,
            Err(e) => return Err(e),
        };
        let decrypted = self.decrypt(ciphertext.as_slice());
        let r = check_challenge(challenge.as_slice(), decrypted);
        proof {
            if r is Ok {
                assert(rsa_oaep_decrypt(self.private_key_der(), ciphertext@) == Some(challenge@));
                assert(self.confirms(candidate@));
            }
        }
        r
    }
}

/// The standard base64 text (with padding) of `bytes`.
pub uninterp spec fn base64_text(bytes: Seq<u8>) -> Seq<char>;

/// The bytes that the standard base64 text `text` stands for, or None where
/// it is not such text.
pub uninterp spec fn base64_bytes(text: Seq<u8>) -> Option<Seq<u8>>;

/// Relies on `base64::engine::general_purpose::STANDARD.encode`.
#[verifier::external_body]
fn base64_encode(bytes: &[u8]) -> (r: String)
    ensures
        r@ == base64_text(bytes@),
{
    base64::engine::general_purpose::STANDARD.encode(bytes)
}

/// Relies on `base64::engine::general_purpose::STANDARD.decode`.
#[verifier::external_body]
fn base64_decode(text: &[u8]) -> (r: Option<Vec<u8>>)
    ensures
        r is Some <==> base64_bytes(text@) is Some,
        r is Some ==> r->Some_0@ == base64_bytes(text@)->Some_0,
{
    base64::engine::general_purpose::STANDARD.decode(text).ok()
}

/// The bytes that `str::trim` removes from either end of ASCII text.
pub open spec fn is_trimmed_byte(b: u8) -> bool {
    b == 0x20 || (0x09 <= b && b <= 0x0d)
}

/// `s` without its leading and trailing whitespace bytes, as the range `[from, to)`.
pub open spec fn trim_bounds(s: Seq<u8>, from: int, to: int) -> bool {
    &&& 0 <= from <= to <= s.len()
    &&& forall|i: int| 0 <= i < from ==> #[trigger] is_trimmed_byte(s[i])
    &&& forall|i: int| to <= i < s.len() ==> #[trigger] is_trimmed_byte(s[i])
    &&& from < to ==> !is_trimmed_byte(s[from]) && !is_trimmed_byte(s[to - 1])
}

fn trim_ascii(s: &[u8]) -> (r: Vec<u8>)
    ensures
        exists|from: int, to: int| trim_bounds(s@, from, to) && r@ == s@.subrange(from, to),
{
    let mut from: usize = 0;
    while from < s.len() && (s[from] == 0x20 || (0x09 <= s[from] && s[from] <= 0x0d))
        invariant
            from <= s@.len(),
            forall|i: int| 0 <= i < from ==> #[trigger] is_trimmed_byte(s@[i]),
        decreases s@.len() - from,
    {
        from = from + 1;
    }
    let mut to: usize = s.len();
    while to > from && (s[to - 1] == 0x20 || (0x09 <= s[to - 1] && s[to - 1] <= 0x0d))
        invariant
            from <= to <= s@.len(),
            forall|i: int| to <= i < s@.len() ==> #[trigger] is_trimmed_byte(s@[i]),
        decreases to,
    {
        to = to - 1;
    }
    let mut r: Vec<u8> = Vec::new();
    let mut i: usize = from;
    while i < to
        invariant
            from <= i <= to <= s@.len(),
            r@ == s@.subrange(from as int, i as int),
        decreases to - i,
    {
        r.push(s[i]);
        i = i + 1;
    }
    proof {
        if from < to {
            assert(!is_trimmed_byte(s@[from as int]));
            assert(!is_trimmed_byte(s@[to - 1]));
        }
        assert(trim_bounds(s@, from as int, to as int));
    }
    r
}

fn flag(name: &str, value: &String) -> (r: String)
    ensures
        r@ == name@ + value@,
{
    String::from_str(name).concat(value.as_str())
}

/// A custodian whose private key stays in a remote key service, reached by
/// running the service's command-line tool inside the enclave.
pub struct RemoteCustodian {
    pub key_id: String,
    pub region: String,
    pub encryption_algorithm: String,
}

impl RemoteCustodian {
    /// The tool's arguments that decrypt `ciphertext`.
    pub fn decrypt_args(&self, ciphertext: &[u8]) -> (r: Vec<String>)
        ensures
            r@.len() == 5,
            r@[0]@ == "decrypt"@,
            r@[1]@ == "--region="@ + self.region@,
            r@[2]@ == "--key-id="@ + self.key_id@,
            r@[3]@ == "--ciphertext="@ + base64_text(ciphertext@),
            r@[4]@ == "--encryption-algorithm="@ + self.encryption_algorithm@,
    {
        let mut r: Vec<String> = Vec::new();
        r.push(String::from_str("decrypt"));
        r.push(flag("--region=", &self.region));
        r.push(flag("--key-id=", &self.key_id));
        r.push(flag("--ciphertext=", &base64_encode(ciphertext)));
        r.push(flag("--encryption-algorithm=", &self.encryption_algorithm));
        r
    }

    /// The tool's arguments that fetch the public key.
    pub fn public_key_args(&self) -> (r: Vec<String>)
        ensures
            r@.len() == 3,
            r@[0]@ == "get-public-key"@,
            r@[1]@ == "--region="@ + self.region@,
            r@[2]@ == "--key-id="@ + self.key_id@,
    {
        let mut r: Vec<String> = Vec::new();
        r.push(String::from_str("get-public-key"));
        r.push(flag("--region=", &self.region));
        r.push(flag("--key-id=", &self.key_id));
        r
    }

    /// The public key in the tool's answer: its `PublicKey` text, base64
    /// with whitespace around it.
    pub fn read_public_key(text: &[u8]) -> (r: Result<Vec<u8>, CustodianError>)
        ensures
            exists|from: int, to: int|
                trim_bounds(text@, from, to) && (match base64_bytes(
                    #[trigger] text@.subrange(from, to),
                ) {
                    Some(b) => r is Ok && r->Ok_0@ == b,
                    None => r == Err::<Vec<u8>, CustodianError>(CustodianError::MalformedOutput),
                }),
    {
        let trimmed = trim_ascii(text);
        match base64_decode(trimmed.as_slice()) {
            Some(b) => Ok(b),
            None => Err(CustodianError::MalformedOutput),
        }
    }

    /// The plaintext in the tool's output: base64 text, whitespace around it.
    pub fn read_decrypt_output(success: bool, stdout: &[u8]) -> (r: Result<Vec<u8>, CustodianError>)
        ensures
            !success ==> r == Err::<Vec<u8>, CustodianError>(CustodianError::RemoteFailed),
            success ==> exists|from: int, to: int|
                trim_bounds(stdout@, from, to) && (match base64_bytes(
                    #[trigger] stdout@.subrange(from, to),
                ) {
                    Some(b) => r is Ok && r->Ok_0@ == b,
                    None => r == Err::<Vec<u8>, CustodianError>(CustodianError::MalformedOutput),
                }),
    {
        if !success {
            return Err(CustodianError::RemoteFailed);
        }
        let trimmed = trim_ascii(stdout);
        match base64_decode(trimmed.as_slice()) {
            Some(b) => Ok(b),
            None => Err(CustodianError::MalformedOutput),
        }
    }
}

} // verus!
