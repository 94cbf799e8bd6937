//! The request ledger: scheduled requests, their status transitions, retry
//! bookkeeping and oldest-due-first retrieval.

use vstd::prelude::*;

use crate::protocol::{EncryptionEnvelope, EnvelopeView};
use crate::uint::{decimal_string, to_decimal, Uint256};

verus! {

/// Where a scheduled request stands.
#[derive(Clone, Copy, Debug, PartialEq, Eq, Structural)]
pub enum RequestStatus {
    Pending,
    Processing,
    Completed,
    Failed,
}

impl RequestStatus {
    /// Completed and Failed rows never change again.
    pub open spec fn is_terminal(self) -> bool {
        self is Completed || self is Failed
    }
}

/// Why the ledger refused a change.
#[derive(Clone, Copy, Debug, PartialEq, Eq, Structural)]
pub enum LedgerError {
    /// No row has the given id.
    NotFound,
    /// The row is Completed or Failed.
    AlreadyTerminal,
    /// A retry must move `relay_after` strictly later.
    RelayAfterNotAdvanced,
    /// The row's retry count is at its largest value.
    RetryCountOverflow,
    /// Every id has been handed out.
    IdsExhausted,
    /// Restored rows do not have growing ids.
    UnorderedIds,
}

/// One row of the ledger. Times are Unix seconds.
#[derive(Debug)]
pub struct ScheduledRequest {
    pub id: u64,
    pub envelope: EncryptionEnvelope,
    /// Decimal text of the index of the account's last note.
    pub last_note_index: String,
    /// Decimal text of the largest relayer fee the client accepts.
    pub max_relayer_fee: String,
    pub relay_after: i64,
    pub status: RequestStatus,
    pub created_at: i64,
    pub processed_at: Option<i64>,
    pub retry_count: u32,
    pub error_message: Option<String>,
}

/// The contents of a [`ScheduledRequest`].
pub struct RequestRecord {
    pub id: u64,
    pub envelope: EnvelopeView,
    pub last_note_index: Seq<char>,
    pub max_relayer_fee: Seq<char>,
    pub relay_after: i64,
    pub status: RequestStatus,
    pub created_at: i64,
    pub processed_at: Option<i64>,
    pub retry_count: u32,
    pub error_message: Option<Seq<char>>,
}

pub open spec fn message_view(m: Option<String>) -> Option<Seq<char>> {
    match m {
        Some(s) => Some(s@),
        None => None,
    }
}

impl View for ScheduledRequest {
    type V = RequestRecord;

    open spec fn view(&self) -> RequestRecord {
        RequestRecord {
            id: self.id,
            envelope: self.envelope@,
            last_note_index: self.last_note_index@,
            max_relayer_fee: self.max_relayer_fee@,
            relay_after: self.relay_after,
            status: self.status,
            created_at: self.created_at,
            processed_at: self.processed_at,
            retry_count: self.retry_count,
            error_message: message_view(self.error_message),
        }
    }
}

fn clone_message(m: &Option<String>) -> (r: Option<String>)
    ensures
        message_view(r) == message_view(*m),
{
    match m {
        Some(s) => Some(s.clone()),
        None => None,
    }
}

impl ScheduledRequest {
    /// A copy with the same contents.
    pub fn duplicate(&self) -> (r: ScheduledRequest)
        ensures
            r@ == self@,
    {
        ScheduledRequest {
            id: self.id,
            envelope: self.envelope.duplicate(),
            last_note_index: self.last_note_index.clone(),
            max_relayer_fee: self.max_relayer_fee.clone(),
            relay_after: self.relay_after,
            status: self.status,
            created_at: self.created_at,
            processed_at: self.processed_at,
            retry_count: self.retry_count,
            error_message: clone_message(&self.error_message),
        }
    }
}

/// The contents of a sequence of rows.
pub open spec fn records(v: Seq<ScheduledRequest>) -> Seq<RequestRecord> {
    v.map_values(|x: ScheduledRequest| x@)
}

/// Ids grow strictly along the rows.
pub open spec fn ids_increasing(rows: Seq<RequestRecord>) -> bool {
    forall|i: int, j: int| 0 <= i < j < rows.len() ==> rows[i].id < rows[j].id
}

/// A row that the scheduler should work on at time `now`.
pub open spec fn is_due(r: RequestRecord, now: i64) -> bool {
    (r.status is Pending || r.status is Processing) && r.relay_after <= now
}

/// The order in which due rows are handed out: by `relay_after`, then by id.
pub open spec fn due_before(a: RequestRecord, b: RequestRecord) -> bool {
    a.relay_after < b.relay_after || (a.relay_after == b.relay_after && a.id < b.id)
}

pub open spec fn has_id(rows: Seq<RequestRecord>, id: u64) -> bool {
    exists|i: int| 0 <= i < rows.len() && rows[i].id == id
}

/// The position of the row with the given id.
pub open spec fn index_of(rows: Seq<RequestRecord>, id: u64) -> int {
    choose|i: int| 0 <= i < rows.len() && rows[i].id == id
}

/// A freshly scheduled row.
pub open spec fn pending_record(
    id: u64,
    envelope: EnvelopeView,
    last_note_index: nat,
    max_relayer_fee: nat,
    relay_after: i64,
    now: i64,
) -> RequestRecord {
    RequestRecord {
        id,
        envelope,
        last_note_index: decimal_string(last_note_index),
        max_relayer_fee: decimal_string(max_relayer_fee),
        relay_after,
        status: RequestStatus::Pending,
        created_at: now,
        processed_at: None,
        retry_count: 0,
        error_message: None,
    }
}

/// The row once the scheduler has taken it up.
pub open spec fn processing_record(r: RequestRecord) -> RequestRecord {
    RequestRecord { status: RequestStatus::Processing, ..r }
}

/// The row once its calldata was prepared.
pub open spec fn completed_record(r: RequestRecord, now: i64) -> RequestRecord {
    RequestRecord {
        status: RequestStatus::Completed,
        processed_at: Some(now),
        error_message: None,
        ..r
    }
}

/// The row once it has failed for good.
pub open spec fn failed_record(r: RequestRecord, error: Seq<char>, now: i64) -> RequestRecord {
    RequestRecord {
        status: RequestStatus::Failed,
        processed_at: Some(now),
        error_message: Some(error),
        ..r
    }
}

/// The row once a failed attempt has been put off to `relay_after`.
pub open spec fn retried_record(
    r: RequestRecord,
    relay_after: i64,
    error: Seq<char>,
    now: i64,
) -> RequestRecord {
    RequestRecord {
        status: RequestStatus::Processing,
        retry_count: (r.retry_count + 1) as u32,
        relay_after,
        processed_at: Some(now),
        error_message: Some(error),
        ..r
    }
}

/// A retry adds exactly one to the retry count and moves `relay_after`
/// strictly later, for every change that `mark_retry` accepts.
pub proof fn lemma_retry_monotone(r: RequestRecord, relay_after: i64, error: Seq<char>, now: i64)
    requires
        relay_after > r.relay_after,
        r.retry_count < u32::MAX,
    ensures
        retried_record(r, relay_after, error, now).retry_count == r.retry_count + 1,
        retried_record(r, relay_after, error, now).relay_after > r.relay_after,
        !retried_record(r, relay_after, error, now).status.is_terminal(),
{
}

/// Taking a row up, completing it or failing it leaves `relay_after` where it was.
pub proof fn lemma_other_transitions_keep_relay_after(r: RequestRecord, error: Seq<char>, now: i64)
    ensures
        processing_record(r).relay_after == r.relay_after,
        completed_record(r, now).relay_after == r.relay_after,
        failed_record(r, error, now).relay_after == r.relay_after,
        completed_record(r, now).status.is_terminal(),
        failed_record(r, error, now).status.is_terminal(),
{
}

/// Rows of a ledger with unique ids, listed in strict handing-out order,
/// have distinct ids.
proof fn lemma_sorted_rows_distinct(rows: Seq<RequestRecord>, out: Seq<RequestRecord>)
    requires
        forall|i: int, j: int|
            0 <= i < rows.len() && 0 <= j < rows.len() && rows[i].id == rows[j].id ==> i == j,
        forall|j: int| 0 <= j < out.len() ==> #[trigger] rows.contains(out[j]),
        forall|j: int, k: int| 0 <= j < k < out.len() ==> due_before(out[j], out[k]),
    ensures
        forall|j: int, k: int| 0 <= j < k < out.len() ==> out[j].id != out[k].id,
{
    assert forall|j: int, k: int| 0 <= j < k < out.len() implies out[j].id != out[k].id by {
        assert(rows.contains(out[j]));
        assert(rows.contains(out[k]));
        let a = choose|a: int| 0 <= a < rows.len() && rows[a] == out[j];
        let b = choose|b: int| 0 <= b < rows.len() && rows[b] == out[k];
        if out[j].id == out[k].id {
            assert(a == b);
            assert(due_before(out[j], out[k]));
        }
    }
}

/// The store of scheduled requests, in the order they were inserted.
pub struct RequestLedger {
    rows: Vec<ScheduledRequest>,
    next_id: u64,
}

impl View for RequestLedger {
    type V = Seq<RequestRecord>;

    closed spec fn view(&self) -> Seq<RequestRecord> {
        records(self.rows@)
    }
}

impl RequestLedger {
    /// The id the next insert hands out.
    pub closed spec fn next_id(&self) -> u64 {
        self.next_id
    }

    /// Ids grow along the rows and stay below the next one to hand out.
    pub closed spec fn wf(&self) -> bool {
        &&& forall|i: int, j: int|
            0 <= i < j < self.rows@.len() ==> self.rows@[i].id < self.rows@[j].id
        &&& forall|i: int| 0 <= i < self.rows@.len() ==> self.rows@[i].id < self.next_id
        &&& self.next_id >= 1
    }

    /// In a well-formed ledger ids grow along the rows, so two rows never
    /// share an id, and every id is below the next one to hand out.
    pub proof fn lemma_ids_unique(&self)
        requires
            self.wf(),
        ensures
            ids_increasing(self@),
            forall|i: int, j: int|
                0 <= i < self@.len() && 0 <= j < self@.len() && self@[i].id == self@[j].id ==> i
                    == j,
            forall|i: int| 0 <= i < self@.len() ==> self@[i].id < self.next_id(),
    {
        self.lemma_view_len();
    }

    proof fn lemma_view_len(&self)
        ensures
            self@.len() == self.rows@.len(),
    {
    }

    pub fn new() -> (r: RequestLedger)
        ensures
            r.wf(),
            r@ == Seq::<RequestRecord>::empty(),
            r.next_id() == 1,
    {
        let r = RequestLedger { rows: Vec::new(), next_id: 1 };
        assert(r@ =~= Seq::<RequestRecord>::empty());
        r
    }

    /// A ledger holding `rows`, as read back from storage in id order; the
    /// next id follows the last one.
    pub fn restore(rows: Vec<ScheduledRequest>) -> (r: Result<RequestLedger, LedgerError>)
        ensures
            r is Ok <==> ids_increasing(records(rows@)) && (rows@.len() > 0 ==> rows@.last().id
                < u64::MAX),
            r is Err ==> r->Err_0 == LedgerError::UnorderedIds,
            r is Ok ==> r->Ok_0.wf() && r->Ok_0@ == records(rows@),
    {
        let mut i: usize = 1;
        while i < rows.len()
            invariant
                1 <= i,
                i <= rows@.len() || rows@.len() == 0,
                forall|a: int, b: int| 0 <= a < b < i && b < rows@.len() ==> rows@[a].id < rows@[b].id,
            decreases rows@.len() - i,
        {
            if rows[i - 1].id >= rows[i].id {
                proof {
                    assert(records(rows@)[i - 1].id == rows@[i - 1].id);
                    assert(records(rows@)[i as int].id == rows@[i as int].id);
                }
                return Err(LedgerError::UnorderedIds);
            }
            i = i + 1;
        }
        let next_id: u64 = if rows.len() == 0 {
            1
        } else {
            let last = rows[rows.len() - 1].id;
            if last == u64::MAX {
                return Err(LedgerError::UnorderedIds);
            }
            last + 1
        };
        let r = RequestLedger { rows, next_id };
        proof {
            assert forall|a: int, b: int| 0 <= a < b < r.rows@.len() implies r.rows@[a].id
                < r.rows@[b].id by {
                assert(b < i);
            }
            assert forall|a: int| 0 <= a < r.rows@.len() implies r.rows@[a].id < r.next_id by {
                if a < r.rows@.len() - 1 {
                    assert(r.rows@[a].id < r.rows@[r.rows@.len() - 1].id);
                }
            }
        }
        Ok(r)
    }

    pub fn len(&self) -> (r: usize)
        ensures
            r == self@.len(),
    {
        self.rows.len()
    }

    /// The position of the row with the given id.
    fn find(&self, id: u64) -> (r: Option<usize>)
        requires
            self.wf(),
        ensures
            r is Some <==> has_id(self@, id),
            r is Some ==> r->Some_0 == index_of(self@, id),
            r is Some ==> self@[r->Some_0 as int].id == id,
    {
        let mut i: usize = 0;
        while i < self.rows.len()
            invariant
                self.wf(),
                i <= self.rows@.len(),
                forall|k: int| 0 <= k < i ==> self.rows@[k].id != id,
            decreases self.rows@.len() - i,
        {
            if self.rows[i].id == id {
                proof {
                    assert(self@[i as int].id == id);
                    self.lemma_ids_unique();
                }
                return Some(i);
            }
            i = i + 1;
        }
        proof {
            if has_id(self@, id) {
                let k = choose|k: int| 0 <= k < self@.len() && self@[k].id == id;
                assert(self.rows@[k].id == id);
            }
        }
        None
    }

    /// The row with the given id.
    pub fn get(&self, id: u64) -> (r: Option<ScheduledRequest>)
        requires
            self.wf(),
        ensures
            r is Some <==> has_id(self@, id),
            r is Some ==> r->Some_0@ == self@[index_of(self@, id)],
    {
        match self.find(id) {
            Some(i) => Some(self.rows[i].duplicate()),
            None => None,
        }
    }

    /// Stores a new Pending row and returns its id.
    pub fn insert(
        &mut self,
        envelope: EncryptionEnvelope,
        last_note_index: &Uint256,
        max_relayer_fee: &Uint256,
        relay_after: i64,
        now: i64,
    ) -> (r: Result<u64, LedgerError>)
        requires
            old(self).wf(),
        ensures
            final(self).wf(),
            r is Err <==> old(self).next_id() == u64::MAX,
            r is Err ==> r == Err::<u64, LedgerError>(LedgerError::IdsExhausted) && final(self)@
                == old(self)@,
            r is Ok ==> r->Ok_0 == old(self).next_id() && !has_id(old(self)@, r->Ok_0) && (forall|
                i: int,
            | 0 <= i < old(self)@.len() ==> old(self)@[i].id < r->Ok_0)
                && final(self)@ == old(self)@.push(
                pending_record(
                    r->Ok_0,
                    envelope@,
                    last_note_index.value(),
                    max_relayer_fee.value(),
                    relay_after,
                    now,
                ),
            ),
    {
        if self.next_id == u64::MAX {
            return Err(LedgerError::IdsExhausted);
        }
        let id = self.next_id;
        let row = ScheduledRequest {
            id,
            envelope,
            last_note_index: to_decimal(last_note_index),
            max_relayer_fee: to_decimal(max_relayer_fee),
            relay_after,
            status: RequestStatus::Pending,
            created_at: now,
            processed_at: None,
            retry_count: 0,
            error_message: None,
        };
        proof {
            if has_id(old(self)@, id) {
                let k = choose|k: int| 0 <= k < old(self)@.len() && old(self)@[k].id == id;
                assert(old(self).rows@[k].id == id);
            }
        }
        self.rows.push(row);
        self.next_id = id + 1;
        assert(self@ =~= old(self)@.push(row@));
        Ok(id)
    }

    /// Puts `row` at position `i`, which holds a row with the same id.
    fn replace_at(&mut self, i: usize, row: ScheduledRequest)
        requires
            old(self).wf(),
            i < old(self)@.len(),
            row.id == old(self)@[i as int].id,
        ensures
            final(self).wf(),
            final(self).next_id() == old(self).next_id(),
            final(self)@ == old(self)@.update(i as int, row@),
    {
        let ghost row_view = row@;
        self.rows.set(i, row);
        assert(self@ =~= old(self)@.update(i as int, row_view));
    }

    /// Marks a Pending row as taken up by the scheduler; a Processing row stays so.
    pub fn mark_processing(&mut self, id: u64) -> (r: Result<(), LedgerError>)
        requires
            old(self).wf(),
        ensures
            final(self).wf(),
            final(self).next_id() == old(self).next_id(),
            r == Err::<(), LedgerError>(LedgerError::NotFound) <==> !has_id(old(self)@, id),
            r == Err::<(), LedgerError>(LedgerError::AlreadyTerminal) <==> has_id(old(self)@, id)
                && old(self)@[index_of(old(self)@, id)].status.is_terminal(),
            r is Ok <==> has_id(old(self)@, id) && !old(self)@[index_of(
                old(self)@,
                id,
            )].status.is_terminal(),
            r is Ok ==> final(self)@ == old(self)@.update(
                index_of(old(self)@, id),
                processing_record(old(self)@[index_of(old(self)@, id)]),
            ),
            r is Err ==> final(self)@ == old(self)@,
    {
        match self.find(id) {
            None => Err(LedgerError::NotFound),
            Some(i) => {
                if self.rows[i].status == RequestStatus::Completed || self.rows[i].status
                    == RequestStatus::Failed {
                    return Err(LedgerError::AlreadyTerminal);
                }
                let mut row = self.rows[i].duplicate();
                row.status = RequestStatus::Processing;
                self.replace_at(i, row);
                Ok(())
            },
        }
    }

    /// Marks a row Completed at time `now`.
    pub fn mark_completed(&mut self, id: u64, now: i64) -> (r: Result<(), LedgerError>)
        requires
            old(self).wf(),
        ensures
            final(self).wf(),
            final(self).next_id() == old(self).next_id(),
            r == Err::<(), LedgerError>(LedgerError::NotFound) <==> !has_id(old(self)@, id),
            r == Err::<(), LedgerError>(LedgerError::AlreadyTerminal) <==> has_id(old(self)@, id)
                && old(self)@[index_of(old(self)@, id)].status.is_terminal(),
            r is Ok <==> has_id(old(self)@, id) && !old(self)@[index_of(
                old(self)@,
                id,
            )].status.is_terminal(),
            r is Ok ==> final(self)@ == old(self)@.update(
                index_of(old(self)@, id),
                completed_record(old(self)@[index_of(old(self)@, id)], now),
            ),
            r is Err ==> final(self)@ == old(self)@,
    {
        match self.find(id) {
            None => Err(LedgerError::NotFound),
            Some(i) => {
                if self.rows[i].status == RequestStatus::Completed || self.rows[i].status
                    == RequestStatus::Failed {
                    return Err(LedgerError::AlreadyTerminal);
                }
                let mut row = self.rows[i].duplicate();
                row.status = RequestStatus::Completed;
                row.processed_at = Some(now);
                row.error_message = None;
                self.replace_at(i, row);
                Ok(())
            },
        }
    }

    /// Marks a row Failed at time `now`, recording `error`.
    pub fn mark_failed(&mut self, id: u64, error: String, now: i64) -> (r: Result<
        (),
        LedgerError,
    >)
        requires
            old(self).wf(),
        ensures
            final(self).wf(),
            final(self).next_id() == old(self).next_id(),
            r == Err::<(), LedgerError>(LedgerError::NotFound) <==> !has_id(old(self)@, id),
            r == Err::<(), LedgerError>(LedgerError::AlreadyTerminal) <==> has_id(old(self)@, id)
                && old(self)@[index_of(old(self)@, id)].status.is_terminal(),
            r is Ok <==> has_id(old(self)@, id) && !old(self)@[index_of(
                old(self)@,
                id,
            )].status.is_terminal(),
            r is Ok ==> final(self)@ == old(self)@.update(
                index_of(old(self)@, id),
                failed_record(old(self)@[index_of(old(self)@, id)], error@, now),
            ),
            r is Err ==> final(self)@ == old(self)@,
    {
        match self.find(id) {
            None => Err(LedgerError::NotFound),
            Some(i) => {
                if self.rows[i].status == RequestStatus::Completed || self.rows[i].status
                    == RequestStatus::Failed {
                    return Err(LedgerError::AlreadyTerminal);
                }
                let mut row = self.rows[i].duplicate();
                row.status = RequestStatus::Failed;
                row.processed_at = Some(now);
                row.error_message = Some(error);
                self.replace_at(i, row);
                Ok(())
            },
        }
    }

    /// Records a failed attempt at time `now`: one more retry, `error` kept,
    /// the row back in Processing and due again at `new_relay_after`, which
    /// must lie after its current `relay_after`.
    pub fn mark_retry(&mut self, id: u64, new_relay_after: i64, error: String, now: i64) -> (r:
        Result<(), LedgerError>)
        requires
            old(self).wf(),
        ensures
            final(self).wf(),
            final(self).next_id() == old(self).next_id(),
            r == Err::<(), LedgerError>(LedgerError::NotFound) <==> !has_id(old(self)@, id),
            r == Err::<(), LedgerError>(LedgerError::AlreadyTerminal) <==> has_id(old(self)@, id)
                && old(self)@[index_of(old(self)@, id)].status.is_terminal(),
            r == Err::<(), LedgerError>(LedgerError::RelayAfterNotAdvanced) <==> has_id(
                old(self)@,
                id,
            ) && !old(self)@[index_of(old(self)@, id)].status.is_terminal() && new_relay_after
                <= old(self)@[index_of(old(self)@, id)].relay_after,
            r == Err::<(), LedgerError>(LedgerError::RetryCountOverflow) <==> has_id(
                old(self)@,
                id,
            ) && !old(self)@[index_of(old(self)@, id)].status.is_terminal() && new_relay_after
                > old(self)@[index_of(old(self)@, id)].relay_after && old(self)@[index_of(
                old(self)@,
                id,
            )].retry_count == u32::MAX,
            r is Ok <==> has_id(old(self)@, id) && !old(self)@[index_of(
                old(self)@,
                id,
            )].status.is_terminal() && new_relay_after > old(self)@[index_of(
                old(self)@,
                id,
            )].relay_after && old(self)@[index_of(old(self)@, id)].retry_count < u32::MAX,
            r is Ok ==> final(self)@ == old(self)@.update(
                index_of(old(self)@, id),
                retried_record(old(self)@[index_of(old(self)@, id)], new_relay_after, error@, now),
            ),
            r is Err ==> final(self)@ == old(self)@,
    {
        match self.find(id) {
            None => Err(LedgerError::NotFound),
            Some(i) => {
                if self.rows[i].status == RequestStatus::Completed || self.rows[i].status
                    == RequestStatus::Failed {
                    return Err(LedgerError::AlreadyTerminal);
                }
                if new_relay_after <= self.rows[i].relay_after {
                    return Err(LedgerError::RelayAfterNotAdvanced);
                }
                if self.rows[i].retry_count == u32::MAX {
                    return Err(LedgerError::RetryCountOverflow);
                }
                let mut row = self.rows[i].duplicate();
                row.status = RequestStatus::Processing;
                row.retry_count = row.retry_count + 1;
                row.relay_after = new_relay_after;
                row.processed_at = Some(now);
                row.error_message = Some(error);
                self.replace_at(i, row);
                Ok(())
            },
        }
    }

    /// Up to `limit` rows that are due at `now`, oldest-due first: every due
    /// row that is left out comes after every row that is returned.
    pub fn fetch_due(&self, limit: usize, now: i64) -> (r: Vec<ScheduledRequest>)
        requires
            self.wf(),
        ensures
            records(r@).len() <= limit,
            forall|j: int|
                0 <= j < records(r@).len() ==> #[trigger] self@.contains(records(r@)[j])
                    && is_due(records(r@)[j], now),
            forall|j: int, k: int|
                0 <= j < k < records(r@).len() ==> due_before(records(r@)[j], records(r@)[k]),
            forall|j: int, k: int|
                0 <= j < k < records(r@).len() ==> records(r@)[j].id != records(r@)[k].id,
            records(r@).len() < limit ==> forall|i: int|
                0 <= i < self@.len() && is_due(#[trigger] self@[i], now) ==> records(
                    r@,
                ).contains(self@[i]),
            forall|i: int, j: int|
                0 <= i < self@.len() && 0 <= j < records(r@).len() && is_due(self@[i], now)
                    && !records(r@).contains(#[trigger] self@[i]) ==> due_before(
                    #[trigger] records(r@)[j],
                    self@[i],
                ),
    {
        let mut out: Vec<ScheduledRequest> = Vec::new();
        let mut last: Option<usize> = None;
        proof {
            self.lemma_ids_unique();
            self.lemma_view_len();
        }
        while out.len() < limit
            invariant
                self.wf(),
                out@.len() <= limit,
                forall|j: int|
                    0 <= j < records(out@).len() ==> #[trigger] self@.contains(records(out@)[j])
                        && is_due(records(out@)[j], now),
                forall|j: int, k: int|
                    0 <= j < k < records(out@).len() ==> due_before(
                        records(out@)[j],
                        records(out@)[k],
                    ),
                last is None <==> out@.len() == 0,
                last is Some ==> last->Some_0 < self@.len() && records(out@).last()
                    == self@[last->Some_0 as int],
                forall|i: int|
                    0 <= i < self@.len() && is_due(#[trigger] self@[i], now) && last is Some
                        && !due_before(self@[last->Some_0 as int], self@[i]) ==> records(
                        out@,
                    ).contains(self@[i]),
            decreases limit - out@.len(),
        {
            let mut best: Option<usize> = None;
            let mut i: usize = 0;
            while i < self.rows.len()
                invariant
                    self.wf(),
                    i <= self@.len(),
                    self@.len() == self.rows@.len(),
                    last is Some ==> last->Some_0 < self@.len(),
                    best is Some ==> best->Some_0 < i && is_due(self@[best->Some_0 as int], now)
                        && (last is None || due_before(
                        self@[last->Some_0 as int],
                        self@[best->Some_0 as int],
                    )),
                    forall|k: int|
                        0 <= k < i && is_due(#[trigger] self@[k], now) && (last is None
                            || due_before(self@[last->Some_0 as int], self@[k])) ==> best is Some
                            && (k == best->Some_0 || due_before(
                            self@[best->Some_0 as int],
                            self@[k],
                        )),
                decreases self@.len() - i,
            {
                let row = &self.rows[i];
                let due = (row.status == RequestStatus::Pending || row.status
                    == RequestStatus::Processing) && row.relay_after <= now;
                let after_last = match last {
                    None => true,
                    Some(l) => {
                        let lr = &self.rows[l];
                        lr.relay_after < row.relay_after || (lr.relay_after == row.relay_after
                            && lr.id < row.id)
                    },
                };
                if due && after_last {
                    let better = match best {
                        None => true,
                        Some(b) => {
                            let br = &self.rows[b];
                            row.relay_after < br.relay_after || (row.relay_after == br.relay_after
                                && row.id < br.id)
                        },
                    };
                    if better {
                        best = Some(i);
                    }
                }
                proof {
                    assert(self@[i as int] == self.rows@[i as int]@);
                }
                i = i + 1;
            }
            match best {
                None => {
                    proof {
                        assert forall|k: int|
                            0 <= k < self@.len() && is_due(#[trigger] self@[k], now) implies records(
                            out@,
                        ).contains(self@[k]) by {
                            if last is None || due_before(self@[last->Some_0 as int], self@[k]) {
                                assert(best is Some);
                            }
                        }
                    }
                    proof {
                        lemma_sorted_rows_distinct(self@, records(out@));
                    }
                    return out;
                },
                Some(b) => {
                    let ghost old_out = records(out@);
                    let ghost last_before = last;
                    let row = self.rows[b].duplicate();
                    out.push(row);
                    last = Some(b);
                    proof {
                        assert(records(out@) =~= old_out.push(self@[b as int]));
                        assert(self@.contains(self@[b as int]));
                        assert forall|j: int, k: int|
                            0 <= j < k < records(out@).len() implies due_before(
                            records(out@)[j],
                            records(out@)[k],
                        ) by {
                            if k == old_out.len() && j < old_out.len() {
                                assert(old_out.last() == self@[last_before->Some_0 as int]);
                                if j < old_out.len() - 1 {
                                    assert(due_before(old_out[j], old_out.last()));
                                }
                            }
                        }
                        assert forall|k: int|
                            0 <= k < self@.len() && is_due(#[trigger] self@[k], now) && !due_before(
                                self@[b as int],
                                self@[k],
                            ) implies records(out@).contains(self@[k]) by {
                            if k == b as int {
                                assert(records(out@)[old_out.len() as int] == self@[k]);
                            } else if old_out.contains(self@[k]) {
                                let j = choose|j: int|
                                    0 <= j < old_out.len() && old_out[j] == self@[k];
                                assert(records(out@)[j] == self@[k]);
                            }
                        }
                    }
                },
            }
        }
        proof {
            assert forall|i: int, j: int|
                0 <= i < self@.len() && 0 <= j < records(out@).len() && is_due(self@[i], now)
                    && !records(out@).contains(#[trigger] self@[i]) implies due_before(
                #[trigger] records(out@)[j],
                self@[i],
            ) by {
                assert(!due_before(self@[last->Some_0 as int], self@[i]) ==> records(out@).contains(self@[i]));
                if j < records(out@).len() - 1 {
                    assert(due_before(records(out@)[j], records(out@).last()));
                }
            }
            lemma_sorted_rows_distinct(self@, records(out@));
        }
        out
    }
}

} // verus!
