//! The host's configuration and the checks and answers of its scheduling
//! endpoint.

use vstd::prelude::*;

use crate::ledger::{has_id, pending_record, LedgerError, RequestLedger};
use crate::protocol::EncryptionEnvelope;
use crate::scheduler::SchedulerConfig;
use crate::uint::{decimal_string, to_decimal, Uint256};

verus! {

/// The host server's settings.
#[derive(Debug)]
pub struct CommandLineArgs {
    pub public_port: u16,
    pub metrics_port: u16,
    pub bind_address: String,
    pub maximum_request_size: usize,
    pub metrics_upkeep_timeout_secs: u64,
    pub metrics_bucket_duration_secs: u64,
    pub tee_port: u32,
    pub tee_cid: u32,
    pub tee_task_pool_capacity: usize,
    pub tee_task_pool_timeout_secs: u64,
    pub tee_compute_timeout_secs: u64,
    pub scheduler_interval_secs: u64,
    pub scheduler_batch_size: usize,
    pub scheduler_max_retry_count: u32,
    pub scheduler_retry_delay_secs: u64,
    pub db_host: String,
    pub db_port: u16,
    pub db_name: String,
    pub db_user: String,
    pub db_pass: String,
    pub db_ssl: bool,
    pub relayer_rpc_url: String,
}

impl CommandLineArgs {
    /// The scheduler's part of the settings, where they let a retry move a
    /// request later: None for a retry delay of zero.
    pub fn scheduler_config(&self) -> (r: Option<SchedulerConfig>)
        ensures
            r is None <==> self.scheduler_retry_delay_secs == 0,
            r is Some ==> r->Some_0.interval_secs == self.scheduler_interval_secs
                && r->Some_0.batch_size == self.scheduler_batch_size
                && r->Some_0.max_retry_count == self.scheduler_max_retry_count
                && r->Some_0.retry_delay_secs == self.scheduler_retry_delay_secs,
    {
        if self.scheduler_retry_delay_secs == 0 {
            return None;
        }
        Some(
            SchedulerConfig {
                interval_secs: self.scheduler_interval_secs,
                batch_size: self.scheduler_batch_size,
                max_retry_count: self.scheduler_max_retry_count,
                retry_delay_secs: self.scheduler_retry_delay_secs,
            },
        )
    }
}

/// The base URL of the relayer's RPC, and its endpoints.
#[derive(Debug)]
pub struct RelayerRpcUrl {
    base_url: String,
}

impl RelayerRpcUrl {
    pub closed spec fn base(&self) -> Seq<char> {
        self.base_url@
    }

    pub fn new(base_url: String) -> (r: RelayerRpcUrl)
        ensures
            r.base() == base_url@,
    {
        RelayerRpcUrl { base_url }
    }

    pub fn healthcheck_url(&self) -> (r: String)
        ensures
            r@ == self.base() + "/health"@,
    {
        self.base_url.clone().concat("/health")
    }

    pub fn relay_url(&self) -> (r: String)
        ensures
            r@ == self.base() + "/relay"@,
    {
        self.base_url.clone().concat("/relay")
    }

    pub fn fees_url(&self) -> (r: String)
        ensures
            r@ == self.base() + "/quote_fees"@,
    {
        self.base_url.clone().concat("/quote_fees")
    }

    pub fn fee_address_url(&self) -> (r: String)
        ensures
            r@ == self.base() + "/fee_address"@,
    {
        self.base_url.clone().concat("/fee_address")
    }
}

/// Why a withdrawal was not scheduled.
#[derive(Debug, PartialEq, Eq, Structural)]
pub enum ScheduleError {
    /// A part of the envelope is empty.
    EmptyPayload,
    /// `relay_after` is not later than now.
    RelayAfterNotInFuture,
    /// The ledger refused the row.
    Ledger(LedgerError),
}

impl ScheduleError {
    /// The HTTP status of the refusal: 400 for a bad request, else 500.
    pub fn http_status(&self) -> (r: u16)
        ensures
            r == (if self is Ledger {
                500u16
            } else {
                400u16
            }),
    {
        match self {
            ScheduleError::Ledger(_) => 500,
            _ => 400,
        }
    }
}

/// Every part of the envelope is there.
pub open spec fn envelope_complete(e: EncryptionEnvelope) -> bool {
    e.encrypted_payload@.len() > 0 && e.encrypted_dek@.len() > 0 && e.iv@.len() > 0
        && e.auth_tag@.len() > 0
}

/// Schedules a withdrawal at time `now`: the envelope must be complete and
/// `relay_after` later than `now`; the ledger then stores a Pending row.
pub fn schedule_withdraw(
    ledger: &mut RequestLedger,
    envelope: EncryptionEnvelope,
    last_note_index: &Uint256,
    max_relayer_fee: &Uint256,
    relay_after: i64,
    now: i64,
) -> (r: Result<u64, ScheduleError>)
    requires
        old(ledger).wf(),
    ensures
        final(ledger).wf(),
        !envelope_complete(envelope) ==> r == Err::<u64, ScheduleError>(ScheduleError::EmptyPayload),
        envelope_complete(envelope) && relay_after <= now ==> r == Err::<u64, ScheduleError>(
            ScheduleError::RelayAfterNotInFuture,
        ),
        envelope_complete(envelope) && relay_after > now ==> (r is Ok <==> old(ledger).next_id()
            < u64::MAX),
        envelope_complete(envelope) && relay_after > now && r is Err ==> r == Err::<u64, ScheduleError>(
            ScheduleError::Ledger(LedgerError::IdsExhausted),
        ),
        r is Err ==> final(ledger)@ == old(ledger)@,
        r is Ok ==> r->Ok_0 == old(ledger).next_id() && !has_id(old(ledger)@, r->Ok_0)
            && final(ledger)@ == old(ledger)@.push(
            pending_record(
                r->Ok_0,
                envelope@,
                last_note_index.value(),
                max_relayer_fee.value(),
                relay_after,
                now,
            ),
        ),
{
    if envelope.encrypted_payload.len() == 0 || envelope.encrypted_dek.len() == 0
        || envelope.iv.len() == 0 || envelope.auth_tag.len() == 0 {
        return Err(ScheduleError::EmptyPayload);
    }
    if relay_after <= now {
        return Err(ScheduleError::RelayAfterNotInFuture);
    }
    match ledger.insert(envelope, last_note_index, max_relayer_fee, relay_after, now) {
        Ok(id) => Ok(id),
        Err(e) => Err(ScheduleError::Ledger(e)),
    }
}

/// The answer to a scheduled withdrawal.
#[derive(Debug)]
pub struct ScheduleWithdrawResponse {
    pub request_id: u64,
    pub message: String,
}

impl ScheduleWithdrawResponse {
    pub fn new(request_id: u64) -> (r: ScheduleWithdrawResponse)
        ensures
            r.request_id == request_id,
            r.message@ == "Withdraw request scheduled successfully. Request ID: "@ + decimal_string(
                request_id as nat,
            ),
    {
        let id_text = to_decimal(&Uint256::from_u64(request_id));
        let message = String::from_str("Withdraw request scheduled successfully. Request ID: ").concat(
            id_text.as_str(),
        );
        ScheduleWithdrawResponse { request_id, message }
    }
}

} // verus!
