use shielder_scheduler::ledger::{LedgerError, RequestLedger, RequestStatus};
use shielder_scheduler::protocol::EncryptionEnvelope;
use shielder_scheduler::scheduler::{
    process_request_logic, record_attempt, relay_calldata, relay_request, ProcessError,
    SchedulerConfig,
};
use shielder_scheduler::gateway::GatewayError;
use shielder_scheduler::protocol::{Request, Response};
use shielder_scheduler::uint::Uint256;
use shielder_scheduler::api::{schedule_withdraw, ScheduleError, ScheduleWithdrawResponse};

fn envelope() -> EncryptionEnvelope {
    EncryptionEnvelope {
        encrypted_payload: vec![1, 2, 3],
        encrypted_dek: vec![4, 5],
        iv: vec![6; 12],
        auth_tag: vec![7; 16],
    }
}

fn config(max_retry_count: u32) -> SchedulerConfig {
    SchedulerConfig {
        interval_secs: 1,
        batch_size: 10,
        max_retry_count,
        retry_delay_secs: 60,
    }
}

/// One polling tick: take up the due rows in order and record each outcome.
fn tick(
    ledger: &mut RequestLedger,
    now: i64,
    cfg: &SchedulerConfig,
    enclave: &dyn Fn(Request) -> Result<Response, GatewayError>,
    seen: &mut Vec<(u64, RequestStatus)>,
) {
    let due = ledger.fetch_due(cfg.batch_size, now);
    for row in due {
        ledger.mark_processing(row.id).unwrap();
        seen.push((row.id, ledger.get(row.id).unwrap().status));
        let outcome = match process_request_logic(&row) {
            Ok(attempt) => {
                let request = relay_request(attempt, vec![vec![Uint256::zero(); 7]; 13]);
                relay_calldata(enclave(request)).map(|_| ())
            }
            Err(e) => Err(e),
        };
        let error = outcome.err().map(|e| e.message());
        record_attempt(ledger, row.id, error, now, cfg).unwrap();
    }
}

#[test]
fn end_to_end_success() {
    let mut ledger = RequestLedger::new();
    let now = 1_000;
    let id = schedule_withdraw(
        &mut ledger,
        envelope(),
        &Uint256::from_u64(5),
        &Uint256::from_u64(100),
        now + 1,
        now,
    )
    .unwrap();
    let row = ledger.get(id).unwrap();
    assert_eq!(row.status, RequestStatus::Pending);
    assert_eq!(row.last_note_index, "5");
    assert_eq!(row.max_relayer_fee, "100");
    let cfg = config(3);
    let enclave = |_r: Request| Ok(Response::PrepareRelayCalldata { calldata: vec![9, 9] });
    let mut seen = Vec::new();
    tick(&mut ledger, now, &cfg, &enclave, &mut seen);
    assert!(seen.is_empty());
    assert_eq!(ledger.get(id).unwrap().status, RequestStatus::Pending);
    tick(&mut ledger, now + 2, &cfg, &enclave, &mut seen);
    assert_eq!(seen, vec![(id, RequestStatus::Processing)]);
    let row = ledger.get(id).unwrap();
    assert_eq!(row.status, RequestStatus::Completed);
    assert_eq!(row.processed_at, Some(now + 2));
    assert_eq!(row.retry_count, 0);
}

#[test]
fn end_to_end_failure() {
    let mut ledger = RequestLedger::new();
    let mut now = 1_000;
    let id = schedule_withdraw(
        &mut ledger,
        envelope(),
        &Uint256::from_u64(5),
        &Uint256::from_u64(100),
        now + 1,
        now,
    )
    .unwrap();
    let cfg = config(3);
    let enclave = |_r: Request| Err(GatewayError::Timeout);
    let mut seen = Vec::new();
    let mut attempts = 0;
    for _ in 0..10 {
        now += 61;
        let before = seen.len();
        tick(&mut ledger, now, &cfg, &enclave, &mut seen);
        attempts += seen.len() - before;
    }
    assert_eq!(attempts, 4);
    let row = ledger.get(id).unwrap();
    assert_eq!(row.status, RequestStatus::Failed);
    assert_eq!(row.retry_count, 3);
    assert_eq!(row.error_message.as_deref(), Some("enclave call timed out"));
}

#[test]
fn fetch_due_orders_oldest_first_and_skips_future_rows() {
    let mut ledger = RequestLedger::new();
    let a = ledger.insert(envelope(), &Uint256::zero(), &Uint256::zero(), 30, 0).unwrap();
    let b = ledger.insert(envelope(), &Uint256::zero(), &Uint256::zero(), 10, 0).unwrap();
    let c = ledger.insert(envelope(), &Uint256::zero(), &Uint256::zero(), 500, 0).unwrap();
    let d = ledger.insert(envelope(), &Uint256::zero(), &Uint256::zero(), 10, 0).unwrap();
    let e = ledger.insert(envelope(), &Uint256::zero(), &Uint256::zero(), 20, 0).unwrap();
    ledger.mark_completed(e, 5).unwrap();
    let ids: Vec<u64> = ledger.fetch_due(10, 100).iter().map(|r| r.id).collect();
    assert_eq!(ids, vec![b, d, a]);
    let ids: Vec<u64> = ledger.fetch_due(2, 100).iter().map(|r| r.id).collect();
    assert_eq!(ids, vec![b, d]);
    assert!(ledger.fetch_due(0, 100).is_empty());
    assert!(ledger.fetch_due(10, 5).is_empty());
    let ids: Vec<u64> = ledger.fetch_due(10, 1_000).iter().map(|r| r.id).collect();
    assert_eq!(ids, vec![b, d, a, c]);
}

#[test]
fn mark_retry_counts_and_advances() {
    let mut ledger = RequestLedger::new();
    let id = ledger.insert(envelope(), &Uint256::zero(), &Uint256::zero(), 10, 0).unwrap();
    ledger.mark_retry(id, 70, "boom".to_string(), 10).unwrap();
    let row = ledger.get(id).unwrap();
    assert_eq!(row.retry_count, 1);
    assert_eq!(row.relay_after, 70);
    assert_eq!(row.status, RequestStatus::Processing);
    assert_eq!(row.error_message.as_deref(), Some("boom"));
    assert_eq!(
        ledger.mark_retry(id, 70, "again".to_string(), 11),
        Err(LedgerError::RelayAfterNotAdvanced)
    );
    assert_eq!(ledger.get(id).unwrap().retry_count, 1);
    ledger.mark_failed(id, "done".to_string(), 12).unwrap();
    assert_eq!(
        ledger.mark_retry(id, 200, "x".to_string(), 13),
        Err(LedgerError::AlreadyTerminal)
    );
    assert_eq!(ledger.mark_completed(id, 13), Err(LedgerError::AlreadyTerminal));
    assert_eq!(ledger.mark_completed(99, 13), Err(LedgerError::NotFound));
}

#[test]
fn retry_then_fail_at_limit() {
    let mut ledger = RequestLedger::new();
    let id = ledger.insert(envelope(), &Uint256::zero(), &Uint256::zero(), 10, 0).unwrap();
    let cfg = config(1);
    record_attempt(&mut ledger, id, Some("e1".to_string()), 10, &cfg).unwrap();
    let row = ledger.get(id).unwrap();
    assert_eq!(row.retry_count, 1);
    assert_eq!(row.relay_after, 70);
    record_attempt(&mut ledger, id, Some("e2".to_string()), 70, &cfg).unwrap();
    let row = ledger.get(id).unwrap();
    assert_eq!(row.status, RequestStatus::Failed);
    assert_eq!(row.retry_count, 1);
    assert_eq!(row.error_message.as_deref(), Some("e2"));
}

#[test]
fn schedule_withdraw_validates() {
    let mut ledger = RequestLedger::new();
    let mut empty = envelope();
    empty.encrypted_payload.clear();
    let r = schedule_withdraw(&mut ledger, empty, &Uint256::zero(), &Uint256::zero(), 10, 0);
    assert_eq!(r, Err(ScheduleError::EmptyPayload));
    assert_eq!(ScheduleError::EmptyPayload.http_status(), 400);
    let r = schedule_withdraw(&mut ledger, envelope(), &Uint256::zero(), &Uint256::zero(), 10, 10);
    assert_eq!(r, Err(ScheduleError::RelayAfterNotInFuture));
    assert_eq!(ledger.len(), 0);
    let r = schedule_withdraw(&mut ledger, envelope(), &Uint256::zero(), &Uint256::zero(), 11, 10);
    assert_eq!(r, Ok(1));
    assert_eq!(ScheduleError::Ledger(LedgerError::IdsExhausted).http_status(), 500);
}

#[test]
fn schedule_response_message() {
    let r = ScheduleWithdrawResponse::new(42);
    assert_eq!(r.request_id, 42);
    assert_eq!(r.message, "Withdraw request scheduled successfully. Request ID: 42");
}

#[test]
fn large_values_round_trip_through_decimal_columns() {
    let mut ledger = RequestLedger::new();
    let big = Uint256 { limbs: [u64::MAX, u64::MAX, u64::MAX, u64::MAX] };
    let id = ledger.insert(envelope(), &big, &Uint256::from_u64(7), 1, 0).unwrap();
    let row = ledger.get(id).unwrap();
    assert_eq!(
        row.last_note_index,
        "115792089237316195423570985008687907853269984665640564039457584007913129639935"
    );
    let attempt = process_request_logic(&row).unwrap();
    assert_eq!(attempt.last_note_index, big);
    assert_eq!(attempt.relayer_fee, Uint256::from_u64(7));
    assert_eq!(attempt.request_id, id);
}

#[test]
fn corrupt_decimal_column_is_a_process_error() {
    let mut ledger = RequestLedger::new();
    let id = ledger.insert(envelope(), &Uint256::zero(), &Uint256::zero(), 1, 0).unwrap();
    let mut row = ledger.get(id).unwrap();
    row.last_note_index = "12x".to_string();
    assert!(matches!(process_request_logic(&row), Err(ProcessError::InvalidLastNoteIndex)));
    row.last_note_index = "1_000".to_string();
    row.max_relayer_fee = "115792089237316195423570985008687907853269984665640564039457584007913129639936".to_string();
    assert!(matches!(process_request_logic(&row), Err(ProcessError::InvalidMaxRelayerFee)));
    row.max_relayer_fee = "".to_string();
    let attempt = process_request_logic(&row).unwrap();
    assert_eq!(attempt.last_note_index, Uint256::from_u64(1000));
    assert_eq!(attempt.relayer_fee, Uint256::zero());
}

#[test]
fn unexpected_response_is_an_error() {
    assert!(matches!(relay_calldata(Ok(Response::Pong)), Err(ProcessError::UnexpectedResponse)));
    assert_eq!(
        relay_calldata(Ok(Response::PrepareRelayCalldata { calldata: vec![1] })).unwrap(),
        vec![1]
    );
    let e = relay_calldata(Err(GatewayError::Overloaded)).unwrap_err();
    assert_eq!(e.message(), "enclave overloaded, try again later");
}
