use shielder_scheduler::api::CommandLineArgs;
use shielder_scheduler::custodian::{
    make_challenge, CustodianError, LocalCustodian, RemoteCustodian, VerificationError,
    CHALLENGE_LEN,
};
use shielder_scheduler::ledger::{LedgerError, RequestLedger, RequestStatus, ScheduledRequest};
use shielder_scheduler::protocol::{EncryptionEnvelope, Payload};
use shielder_scheduler::uint::Uint256;

fn row(id: u64, relay_after: i64) -> ScheduledRequest {
    ScheduledRequest {
        id,
        envelope: EncryptionEnvelope {
            encrypted_payload: vec![1],
            encrypted_dek: vec![2],
            iv: vec![3; 12],
            auth_tag: vec![4; 16],
        },
        last_note_index: "5".to_string(),
        max_relayer_fee: "100".to_string(),
        relay_after,
        status: RequestStatus::Pending,
        created_at: 0,
        processed_at: None,
        retry_count: 0,
        error_message: None,
    }
}

#[test]
fn restore_keeps_rows_and_continues_ids() {
    let mut ledger = RequestLedger::restore(vec![row(3, 10), row(7, 5)]).unwrap();
    assert_eq!(ledger.len(), 2);
    let ids: Vec<u64> = ledger.fetch_due(10, 10).iter().map(|r| r.id).collect();
    assert_eq!(ids, vec![7, 3]);
    let next = ledger.insert(row(0, 1).envelope, &Uint256::zero(), &Uint256::zero(), 1, 0).unwrap();
    assert_eq!(next, 8);
    assert!(RequestLedger::restore(vec![]).is_ok());
}

#[test]
fn restore_refuses_unordered_ids() {
    assert!(matches!(
        RequestLedger::restore(vec![row(7, 10), row(3, 5)]),
        Err(LedgerError::UnorderedIds)
    ));
    assert!(matches!(
        RequestLedger::restore(vec![row(3, 10), row(3, 5)]),
        Err(LedgerError::UnorderedIds)
    ));
    assert!(matches!(
        RequestLedger::restore(vec![row(u64::MAX, 10)]),
        Err(LedgerError::UnorderedIds)
    ));
}

#[test]
fn processing_is_refused_on_terminal_rows() {
    let mut ledger = RequestLedger::restore(vec![row(1, 10)]).unwrap();
    ledger.mark_processing(1).unwrap();
    assert_eq!(ledger.get(1).unwrap().status, RequestStatus::Processing);
    ledger.mark_processing(1).unwrap();
    ledger.mark_completed(1, 20).unwrap();
    assert_eq!(ledger.mark_processing(1), Err(LedgerError::AlreadyTerminal));
    assert_eq!(ledger.get(1).unwrap().error_message, None);
    assert_eq!(ledger.mark_processing(2), Err(LedgerError::NotFound));
}

#[test]
fn public_key_requests() {
    let c = LocalCustodian::generate(1024).unwrap();
    assert_eq!(c.public_key_for(&None).unwrap(), c.public_key());
    assert_eq!(c.public_key_for(&Some(c.public_key())).unwrap(), c.public_key());
    let other = LocalCustodian::generate(1024).unwrap();
    assert!(c.public_key_for(&Some(other.public_key())).is_err());
    let ch = make_challenge(&c.public_key()).unwrap();
    assert_eq!(ch.challenge.len(), CHALLENGE_LEN);
    assert_eq!(c.decrypt(&ch.ciphertext).unwrap(), ch.challenge);
    assert_eq!(make_challenge(b"junk").unwrap_err(), VerificationError::UnusableKey);
    assert_eq!(c.decrypt(&[1, 2, 3]), Err(CustodianError::DecryptFailed));
}

#[test]
fn remote_public_key_text() {
    assert_eq!(RemoteCustodian::read_public_key(b"\tAAEC\r\n").unwrap(), vec![0, 1, 2]);
    assert_eq!(RemoteCustodian::read_public_key(b"").unwrap(), Vec::<u8>::new());
    assert_eq!(
        RemoteCustodian::read_public_key(b"AA EC"),
        Err(CustodianError::MalformedOutput)
    );
}

fn payload(memo_len: usize) -> Payload {
    Payload {
        account_id: Uint256::from_u64(1),
        account_old_balance: Uint256::from_u64(1000),
        nullifier_old: Uint256::zero(),
        nullifier_new: Uint256::zero(),
        last_note_index: Uint256::from_u64(5),
        mac_salt: Uint256::zero(),
        contract_version: [0, 1, 0],
        chain_id: Uint256::from_u64(1),
        token_address: [0; 20],
        withdrawal_value: Uint256::from_u64(500),
        withdraw_address: [1; 20],
        pocket_money: Uint256::zero(),
        protocol_fee: Uint256::zero(),
        memo: vec![0; memo_len],
        max_relayer_fee: Uint256::from_u64(100),
        relay_after: Uint256::from_u64(1_700_000_000),
    }
}

#[test]
fn payload_memo_bound() {
    assert!(payload(0).is_valid());
    assert!(payload(0x80_0000).is_valid());
    assert!(!payload(0x80_0001).is_valid());
}

#[test]
fn scheduler_settings() {
    let args = CommandLineArgs {
        public_port: 3000,
        metrics_port: 3001,
        bind_address: "0.0.0.0".to_string(),
        maximum_request_size: 102400,
        metrics_upkeep_timeout_secs: 60,
        metrics_bucket_duration_secs: 60,
        tee_port: 5000,
        tee_cid: 2,
        tee_task_pool_capacity: 100,
        tee_task_pool_timeout_secs: 5,
        tee_compute_timeout_secs: 60,
        scheduler_interval_secs: 5,
        scheduler_batch_size: 10,
        scheduler_max_retry_count: 3,
        scheduler_retry_delay_secs: 60,
        db_host: "localhost".to_string(),
        db_port: 5432,
        db_name: "scheduler-db".to_string(),
        db_user: "postgres".to_string(),
        db_pass: "postgres".to_string(),
        db_ssl: false,
        relayer_rpc_url: "http://localhost:4141".to_string(),
    };
    let c = args.scheduler_config().unwrap();
    assert_eq!(
        (c.interval_secs, c.batch_size, c.max_retry_count, c.retry_delay_secs),
        (5, 10, 3, 60)
    );
    let no_delay = CommandLineArgs { scheduler_retry_delay_secs: 0, ..args };
    assert!(no_delay.scheduler_config().is_none());
}
