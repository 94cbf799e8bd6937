//! Secure scheduling and execution of deferred shielded-pool withdrawals.
//!
//! The library holds the verified core: the envelope encryption scheme and
//! its key custodian, the framing of the host/enclave channel, the gateway's
//! error model, the request ledger and the scheduler's retry policy.

pub mod uint;
pub mod protocol;
pub mod ledger;
pub mod scheduler;
pub mod gateway;
pub mod envelope;
pub mod custodian;
pub mod channel;
pub mod metrics;
pub mod api;
