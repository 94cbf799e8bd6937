//! Messages exchanged between the host and the enclave.

use vstd::prelude::*;

use crate::uint::Uint256;

verus! {

/// The wire form of a sealed payload. All four parts travel and persist together.
#[derive(Clone, Debug)]
pub struct EncryptionEnvelope {
    /// The payload encrypted under the data-encryption key, without its tag.
    pub encrypted_payload: Vec<u8>,
    /// The data-encryption key, wrapped under the enclave's public key.
    pub encrypted_dek: Vec<u8>,
    /// The initialisation vector of the symmetric cipher.
    pub iv: Vec<u8>,
    /// The authentication tag of the symmetric cipher.
    pub auth_tag: Vec<u8>,
}

/// The contents of an [`EncryptionEnvelope`].
pub struct EnvelopeView {
    pub encrypted_payload: Seq<u8>,
    pub encrypted_dek: Seq<u8>,
    pub iv: Seq<u8>,
    pub auth_tag: Seq<u8>,
}

impl View for EncryptionEnvelope {
    type V = EnvelopeView;

    open spec fn view(&self) -> EnvelopeView {
        EnvelopeView {
            encrypted_payload: self.encrypted_payload@,
            encrypted_dek: self.encrypted_dek@,
            iv: self.iv@,
            auth_tag: self.auth_tag@,
        }
    }
}

impl EncryptionEnvelope {
    /// A copy with the same contents.
    pub fn duplicate(&self) -> (r: EncryptionEnvelope)
        ensures
            r@ == self@,
    {
        EncryptionEnvelope {
            encrypted_payload: self.encrypted_payload.clone(),
            encrypted_dek: self.encrypted_dek.clone(),
            iv: self.iv.clone(),
            auth_tag: self.auth_tag.clone(),
        }
    }
}

/// The vsock port on which the enclave listens.
pub const VSOCK_PORT: u32 = 5000;

/// A request from the host to the enclave.
#[derive(Debug)]
pub enum Request {
    /// A health check.
    Ping,
    /// Asks for the enclave's public key. A candidate key, when given, is
    /// checked to be the enclave's own before it is trusted.
    TeePublicKey { public_key: Option<Vec<u8>> },
    /// Asks the enclave to open the envelope and prepare relay calldata.
    PrepareRelayCalldata {
        encryption_envelope: EncryptionEnvelope,
        relayer_fee: Uint256,
        relayer_address: [u8; 20],
        /// Sibling values from the note's leaf up to the root, one row per level.
        merkle_path: Vec<Vec<Uint256>>,
    },
}

/// A response from the enclave to the host.
#[derive(Debug)]
pub enum Response {
    /// The answer to [`Request::Ping`].
    Pong,
    /// The enclave's public key and an attestation document that embeds it.
    TeePublicKey { public_key: Vec<u8>, attestation_document: Vec<u8> },
    /// Calldata that relays the withdrawal on chain.
    PrepareRelayCalldata { calldata: Vec<u8> },
}

/// The plaintext of an envelope: what the enclave needs to prove and relay
/// a withdrawal. Only the enclave ever sees it.
#[derive(Debug)]
pub struct Payload {
    pub account_id: Uint256,
    pub account_old_balance: Uint256,
    pub nullifier_old: Uint256,
    pub nullifier_new: Uint256,
    pub last_note_index: Uint256,
    pub mac_salt: Uint256,
    pub contract_version: [u8; 3],
    pub chain_id: Uint256,
    pub token_address: [u8; 20],
    /// The whole amount withdrawn, fees included.
    pub withdrawal_value: Uint256,
    pub withdraw_address: [u8; 20],
    pub pocket_money: Uint256,
    pub protocol_fee: Uint256,
    pub memo: Vec<u8>,
    pub max_relayer_fee: Uint256,
    /// The Unix time after which the withdrawal may be relayed.
    pub relay_after: Uint256,
}

impl Payload {
    /// The memo fits in one frame of the channel.
    pub open spec fn memo_fits(&self) -> bool {
        self.memo@.len() <= crate::channel::MAX_FRAME_LEN
    }

    /// Whether the payload is acceptable domain data.
    pub fn is_valid(&self) -> (r: bool)
        ensures
            r == self.memo_fits(),
    {
        self.memo.len() <= crate::channel::MAX_FRAME_LEN
    }
}

} // verus!
