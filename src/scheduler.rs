//! The scheduler's policy: what to do with a due request and what to record
//! once its attempt is over.

use vstd::prelude::*;

use crate::ledger::{
    completed_record, failed_record, has_id, index_of, retried_record, LedgerError, RequestLedger,
    RequestRecord, ScheduledRequest,
};
use crate::gateway::{ChannelError, GatewayError};
use crate::protocol::{EncryptionEnvelope, Request, Response};
use crate::uint::{decimal_text_value, is_decimal_text, parse_decimal, uint256_bound, Uint256};

verus! {

/// How the scheduler polls and retries.
#[derive(Clone, Copy, Debug)]
pub struct SchedulerConfig {
    /// Seconds between two polls of the ledger.
    pub interval_secs: u64,
    /// How many due requests one poll takes up.
    pub batch_size: usize,
    /// How many failed attempts are retried before a request fails for good.
    pub max_retry_count: u32,
    /// Seconds a failed request waits before its next attempt.
    pub retry_delay_secs: u64,
}

/// The time of the next attempt after a failure at `now`, held at `i64::MAX`.
pub open spec fn retry_time(now: i64, delay: u64) -> i64 {
    if now + delay > i64::MAX {
        i64::MAX
    } else {
        (now + delay) as i64
    }
}

/// The row after an attempt at time `now`: `error` is None for a success.
pub open spec fn after_attempt(
    r: RequestRecord,
    error: Option<Seq<char>>,
    now: i64,
    config: SchedulerConfig,
) -> RequestRecord {
    match error {
        None => completed_record(r, now),
        Some(e) => if r.retry_count < config.max_retry_count {
            retried_record(r, retry_time(now, config.retry_delay_secs), e, now)
        } else {
            failed_record(r, e, now)
        },
    }
}

/// Whether the ledger accepts the change that an attempt's end asks for.
pub open spec fn attempt_recordable(
    r: RequestRecord,
    error: Option<Seq<char>>,
    now: i64,
    config: SchedulerConfig,
) -> bool {
    !r.status.is_terminal() && (error is None || r.retry_count >= config.max_retry_count
        || retry_time(now, config.retry_delay_secs) > r.relay_after)
}

pub open spec fn error_view(e: Option<String>) -> Option<Seq<char>> {
    match e {
        Some(s) => Some(s@),
        None => None,
    }
}

fn retry_time_exec(now: i64, delay: u64) -> (r: i64)
    ensures
        r == retry_time(now, delay),
{
    if now < 0 {
        let room: u64 = (-(now as i128)) as u64;
        if delay <= room {
            return (now as i128 + delay as i128) as i64;
        }
    }
    let n: u64 = if now < 0 { 0 } else { now as u64 };
    let extra: u64 = if now < 0 { (delay - (-(now as i128)) as u64) } else { delay };
    if extra > (i64::MAX as u64) - n {
        i64::MAX
    } else {
        (n + extra) as i64
    }
}

/// Records the end of an attempt on the row `id` at time `now`: Completed on
/// success; on failure, a retry while the row has retries left, else Failed.
pub fn record_attempt(
    ledger: &mut RequestLedger,
    id: u64,
    error: Option<String>,
    now: i64,
    config: &SchedulerConfig,
) -> (r: Result<(), LedgerError>)
    requires
        old(ledger).wf(),
    ensures
        final(ledger).wf(),
        final(ledger).next_id() == old(ledger).next_id(),
        r == Err::<(), LedgerError>(LedgerError::NotFound) <==> !has_id(old(ledger)@, id),
        r is Ok <==> has_id(old(ledger)@, id) && attempt_recordable(
            old(ledger)@[index_of(old(ledger)@, id)],
            error_view(error),
            now,
            *config,
        ),
        r is Ok ==> final(ledger)@ == old(ledger)@.update(
            index_of(old(ledger)@, id),
            after_attempt(old(ledger)@[index_of(old(ledger)@, id)], error_view(error), now, *config),
        ),
        r is Err ==> final(ledger)@ == old(ledger)@,
{
    let row = match ledger.get(id) {
        Some(row) => row,
        None => return Err(LedgerError::NotFound),
    };
    match error {
        None => ledger.mark_completed(id, now),
        Some(e) => {
            if row.retry_count < config.max_retry_count {
                let next = retry_time_exec(now, config.retry_delay_secs);
                ledger.mark_retry(id, next, e, now)
            } else {
                ledger.mark_failed(id, e, now)
            }
        },
    }
}

/// The row after `n` failed attempts, each made when the row fell due.
pub open spec fn after_failures(
    r: RequestRecord,
    error: Seq<char>,
    config: SchedulerConfig,
    n: nat,
) -> RequestRecord
    decreases n,
{
    if n == 0 {
        r
    } else {
        let p = after_failures(r, error, config, (n - 1) as nat);
        after_attempt(p, Some(error), p.relay_after, config)
    }
}

/// Each failure of a fresh request while retries are left adds exactly one
/// retry, keeps the row open and moves `relay_after` strictly later (unless it
/// already stands at the largest time); once `max_retry_count` failures have
/// been retried, the next failure makes the row Failed instead of retrying.
pub proof fn lemma_retry_exhaustion(
    r: RequestRecord,
    error: Seq<char>,
    config: SchedulerConfig,
    k: nat,
)
    requires
        r.status is Pending,
        r.retry_count == 0,
        config.retry_delay_secs >= 1,
        k <= config.max_retry_count,
    ensures
        after_failures(r, error, config, k).retry_count == k,
        !after_failures(r, error, config, k).status.is_terminal(),
        k < config.max_retry_count && after_failures(r, error, config, k).relay_after < i64::MAX
            ==> after_failures(r, error, config, k + 1).relay_after > after_failures(
            r,
            error,
            config,
            k,
        ).relay_after && after_failures(r, error, config, k + 1).retry_count == k + 1,
        k == config.max_retry_count ==> after_failures(r, error, config, k + 1).status is Failed
            && after_failures(r, error, config, k + 1).retry_count == k,
    decreases k,
{
    if k > 0 {
        lemma_retry_exhaustion(r, error, config, (k - 1) as nat);
    }
    let p = after_failures(r, error, config, k);
    assert(after_failures(r, error, config, k + 1) == after_attempt(
        p,
        Some(error),
        p.relay_after,
        config,
    ));
}

/// Why an attempt on a scheduled request did not produce calldata.
#[derive(Debug)]
pub enum ProcessError {
    /// The stored last-note index is not decimal text of a 256-bit value.
    InvalidLastNoteIndex,
    /// The stored relayer fee is not decimal text of a 256-bit value.
    InvalidMaxRelayerFee,
    /// The Merkle path could not be fetched.
    MerklePath(String),
    /// The enclave could not be reached or failed.
    Gateway(GatewayError),
    /// The enclave answered with another kind of response.
    UnexpectedResponse,
}

pub open spec fn channel_error_text(e: ChannelError) -> Seq<char> {
    match e {
        ChannelError::Transport(m) => "transport: "@ + m@,
        ChannelError::Protocol(m) => "protocol: "@ + m@,
        ChannelError::Crypto(m) => "crypto: "@ + m@,
    }
}

pub open spec fn process_error_text(e: ProcessError) -> Seq<char> {
    match e {
        ProcessError::InvalidLastNoteIndex => "invalid last_note_index"@,
        ProcessError::InvalidMaxRelayerFee => "invalid max_relayer_fee"@,
        ProcessError::MerklePath(m) => "merkle path: "@ + m@,
        ProcessError::Gateway(g) => match g {
            GatewayError::Overloaded => "enclave overloaded, try again later"@,
            GatewayError::Timeout => "enclave call timed out"@,
            GatewayError::PoolClosed => "enclave pool closed"@,
            GatewayError::Channel(c) => channel_error_text(c),
        },
        ProcessError::UnexpectedResponse => "unexpected response from enclave"@,
    }
}

fn prefixed(prefix: &str, m: &String) -> (r: String)
    ensures
        r@ == prefix@ + m@,
{
    String::from_str(prefix).concat(m.as_str())
}

impl ProcessError {
    /// The text recorded in the ledger's `error_message`; never empty.
    pub fn message(&self) -> (r: String)
        ensures
            r@ == process_error_text(*self),
            r@.len() > 0,
    {
        proof {
            reveal_strlit("transport: ");
            reveal_strlit("protocol: ");
            reveal_strlit("crypto: ");
            reveal_strlit("merkle path: ");
            reveal_strlit("invalid last_note_index");
            reveal_strlit("invalid max_relayer_fee");
            reveal_strlit("enclave overloaded, try again later");
            reveal_strlit("enclave call timed out");
            reveal_strlit("enclave pool closed");
            reveal_strlit("unexpected response from enclave");
        }
        match self {
            ProcessError::InvalidLastNoteIndex => String::from_str("invalid last_note_index"),
            ProcessError::InvalidMaxRelayerFee => String::from_str("invalid max_relayer_fee"),
            ProcessError::MerklePath(m) => prefixed("merkle path: ", m),
            ProcessError::Gateway(g) => match g {
                GatewayError::Overloaded => String::from_str("enclave overloaded, try again later"),
                GatewayError::Timeout => String::from_str("enclave call timed out"),
                GatewayError::PoolClosed => String::from_str("enclave pool closed"),
                GatewayError::Channel(c) => match c {
                    ChannelError::Transport(m) => prefixed("transport: ", m),
                    ChannelError::Protocol(m) => prefixed("protocol: ", m),
                    ChannelError::Crypto(m) => prefixed("crypto: ", m),
                },
            },
            ProcessError::UnexpectedResponse => String::from_str("unexpected response from enclave"),
        }
    }
}

/// What an attempt needs from a row, its decimal columns read.
#[derive(Debug)]
pub struct RelayAttempt {
    pub request_id: u64,
    pub last_note_index: Uint256,
    pub relayer_fee: Uint256,
    pub envelope: EncryptionEnvelope,
}

/// Reads the decimal columns of a row for an attempt.
pub fn process_request_logic(request: &ScheduledRequest) -> (r: Result<RelayAttempt, ProcessError>)
    ensures
        r is Ok <==> is_decimal_text(request.last_note_index@) && decimal_text_value(
            request.last_note_index@,
        ) < uint256_bound() && is_decimal_text(request.max_relayer_fee@) && decimal_text_value(
            request.max_relayer_fee@,
        ) < uint256_bound(),
        r is Ok ==> r->Ok_0.request_id == request.id && r->Ok_0.last_note_index.value()
            == decimal_text_value(request.last_note_index@) && r->Ok_0.relayer_fee.value()
            == decimal_text_value(request.max_relayer_fee@) && r->Ok_0.envelope@ == request.envelope@,
        r is Err ==> (r->Err_0 is InvalidLastNoteIndex <==> !(is_decimal_text(
            request.last_note_index@,
        ) && decimal_text_value(request.last_note_index@) < uint256_bound())),
        r is Err ==> r->Err_0 is InvalidLastNoteIndex || r->Err_0 is InvalidMaxRelayerFee,
{
    let last_note_index = match parse_decimal(request.last_note_index.as_str()) {
        Some(v) => v,
        None => return Err(ProcessError::InvalidLastNoteIndex),
    };
    let relayer_fee = match parse_decimal(request.max_relayer_fee.as_str()) {
        Some(v) => v,
        None => return Err(ProcessError::InvalidMaxRelayerFee),
    };
    Ok(RelayAttempt {
        request_id: request.id,
        last_note_index,
        relayer_fee,
        envelope: request.envelope.duplicate(),
    })
}

/// The request that asks the enclave for an attempt's calldata. The relayer
/// address is left zero: fee routing is settled outside the scheduler.
pub fn relay_request(attempt: RelayAttempt, merkle_path: Vec<Vec<Uint256>>) -> (r: Request)
    ensures
        r matches Request::PrepareRelayCalldata {
            encryption_envelope,
            relayer_fee,
            relayer_address,
            merkle_path: path,
        } && encryption_envelope@ == attempt.envelope@ && relayer_fee == attempt.relayer_fee
            && (forall|i: int| 0 <= i < 20 ==> relayer_address@[i] == 0u8) && path == merkle_path,
{
    let r = Request::PrepareRelayCalldata {
        encryption_envelope: attempt.envelope,
        relayer_fee: attempt.relayer_fee,
        relayer_address: [0u8; 20],
        merkle_path,
    };
    r
}

/// The calldata of the enclave's answer to a relay request.
pub fn relay_calldata(response: Result<Response, GatewayError>) -> (r: Result<Vec<u8>, ProcessError>)
    ensures
        response matches Ok(Response::PrepareRelayCalldata { calldata }) ==> r == Ok::<
            Vec<u8>,
            ProcessError,
        >(calldata),
        (response matches Ok(Response::Pong) || response matches Ok(
            Response::TeePublicKey { .. },
        )) ==> r == Err::<Vec<u8>, ProcessError>(ProcessError::UnexpectedResponse),
        response is Err ==> r == Err::<Vec<u8>, ProcessError>(
            ProcessError::Gateway(response->Err_0),
        ),
{
    match response {
        Ok(Response::PrepareRelayCalldata { calldata }) => Ok(calldata),
        Ok(_) => Err(ProcessError::UnexpectedResponse),
        Err(e) => Err(ProcessError::Gateway(e)),
    }
}

} // verus!
