//! The append-only log of sync-status records.
//!
//! Every sync attempt adds records; none is ever changed or removed. The
//! current status is the record with the greatest creation time, and among
//! records created at the same instant the one with the greatest identifier.

use vstd::prelude::*;
use vstd::string::StringExecFns;
use crate::db::models::SyncStatus;
use crate::sync::error::SyncError;

verus! {

/// Most records any store holds: identifiers are positive `i32`s.
pub const MAX_RECORDS: usize = 2_147_483_647;

/// `x` comes no later than `y` in the order that decides which record is
/// current: by creation time, then by identifier.
pub open spec fn record_key_le(x: SyncStatus, y: SyncStatus) -> bool {
    x.created_at.as_nanos() < y.created_at.as_nanos() || (x.created_at.as_nanos()
        == y.created_at.as_nanos() && x.id <= y.id)
}

/// `log[i]` is the current record of `log`: no record comes later in the
/// order of [`record_key_le`], and every record before position `i` comes
/// strictly earlier.
pub open spec fn is_latest_index(log: Seq<SyncStatus>, i: int) -> bool {
    &&& 0 <= i < log.len()
    &&& forall|j: int| 0 <= j < log.len() ==> record_key_le(#[trigger] log[j], log[i])
    &&& forall|j: int| 0 <= j < i ==> !record_key_le(log[i], #[trigger] log[j])
}

/// `record` is the current record of `log`.
pub open spec fn is_latest(log: Seq<SyncStatus>, record: SyncStatus) -> bool {
    exists|i: int| is_latest_index(log, i) && log[i] == record
}

/// No two records of `log` share an identifier.
pub open spec fn distinct_ids(log: Seq<SyncStatus>) -> bool {
    forall|i: int, j: int|
        0 <= i < log.len() && 0 <= j < log.len() && i != j ==> (#[trigger] log[i]).id != (
        #[trigger] log[j]).id
}

/// The record at position `i` carries the identifier `i + 1`.
pub open spec fn ids_are_positions(log: Seq<SyncStatus>) -> bool {
    forall|i: int| 0 <= i < log.len() ==> (#[trigger] log[i]).id == i + 1
}

/// `record` as the store keeps it: with the identifier the store gave it.
pub open spec fn stored_as(record: SyncStatus, id: i32) -> SyncStatus {
    SyncStatus {
        id,
        last_sync_at: record.last_sync_at,
        sync_status: record.sync_status,
        error_message: record.error_message,
        created_at: record.created_at,
    }
}

/// Whether `x` comes no later than `y` in the order of [`record_key_le`].
pub fn key_le(x: &SyncStatus, y: &SyncStatus) -> (r: bool)
    ensures
        r == record_key_le(*x, *y),
{
    if x.created_at.is_before(&y.created_at) {
        true
    } else if x.created_at.same_instant(&y.created_at) {
        x.id <= y.id
    } else {
        false
    }
}

/// The position of the current record among `records`, in whatever order
/// they were read; `None` exactly when there is no record.
pub fn latest_index(records: &[SyncStatus]) -> (r: Option<usize>)
    ensures
        match r {
            None => records@.len() == 0,
            Some(i) => is_latest_index(records@, i as int),
        },
{
    if records.len() == 0 {
        return None;
    }
    let mut best: usize = 0;
    let mut k: usize = 1;
    while k < records.len()
        invariant
            1 <= k <= records@.len(),
            0 <= best < k,
            forall|j: int| 0 <= j < k ==> record_key_le(#[trigger] records@[j], records@[best as int]),
            forall|j: int|
                0 <= j < best ==> !record_key_le(records@[best as int], #[trigger] records@[j]),
        decreases records@.len() - k,
    {
        if !key_le(&records[k], &records[best]) {
            best = k;
        }
        k = k + 1;
    }
    Some(best)
}

/// A log has at most one current record.
pub proof fn lemma_latest_index_unique(log: Seq<SyncStatus>, i: int, j: int)
    requires
        is_latest_index(log, i),
        is_latest_index(log, j),
    ensures
        i == j,
{
    if i < j {
        assert(record_key_le(log[i], log[j]));
        assert(record_key_le(log[j], log[i]));
    } else if j < i {
        assert(record_key_le(log[j], log[i]));
        assert(record_key_le(log[i], log[j]));
    }
}

/// Which record is current does not depend on the order in which the
/// records reached the log: two logs that hold the same records, each with
/// an identifier of its own, have the same current record.
pub proof fn lemma_latest_ignores_write_order(
    a: Seq<SyncStatus>,
    b: Seq<SyncStatus>,
    i: int,
    j: int,
)
    requires
        distinct_ids(a),
        a.to_multiset() =~= b.to_multiset(),
        is_latest_index(a, i),
        is_latest_index(b, j),
    ensures
        a[i] == b[j],
{
    broadcast use vstd::seq_lib::group_to_multiset_ensures;

    a.to_multiset_ensures();
    b.to_multiset_ensures();
    // The current record of each log occurs in the other.
    assert(a.contains(a[i]));
    assert(b.contains(b[j]));
    assert(b.to_multiset().count(a[i]) > 0);
    assert(a.to_multiset().count(b[j]) > 0);
    assert(b.contains(a[i]));
    assert(a.contains(b[j]));
    let p = choose|p: int| 0 <= p < b.len() && b[p] == a[i];
    let q = choose|q: int| 0 <= q < a.len() && a[q] == b[j];
    // Each is no later than the other, so they agree in time and identifier.
    assert(record_key_le(b[p], b[j]));
    assert(record_key_le(a[q], a[i]));
    assert(a[i].id == a[q].id);
    if q != i {
        assert(a[q].id != a[i].id);
    }
}

/// The append-only log of sync-status records, held in memory.
///
/// The store hands out identifiers 1, 2, 3, … in the order of the writes it
/// receives and never reuses one. It takes records up to the limit it was
/// made with; a write beyond the limit fails.
#[derive(Debug)]
pub struct SyncStatusStore {
    records: Vec<SyncStatus>,
    limit: usize,
}

impl View for SyncStatusStore {
    type V = Seq<SyncStatus>;

    closed spec fn view(&self) -> Seq<SyncStatus> {
        self.records@
    }
}

impl SyncStatusStore {
    /// Most records this store holds.
    pub closed spec fn spec_limit(&self) -> nat {
        self.limit as nat
    }

    /// The store's invariant: the record at position `i` has identifier
    /// `i + 1`, and the store holds no more records than its limit, which
    /// is at most [`MAX_RECORDS`].
    pub open spec fn wf(&self) -> bool {
        &&& ids_are_positions(self@)
        &&& self@.len() <= self.spec_limit() <= MAX_RECORDS
    }

    /// An empty log that takes as many records as there are identifiers.
    pub fn new() -> (s: SyncStatusStore)
        ensures
            s.wf(),
            s@ == Seq::<SyncStatus>::empty(),
            s.spec_limit() == MAX_RECORDS,
    {
        SyncStatusStore { records: Vec::new(), limit: MAX_RECORDS }
    }

    /// An empty log that takes at most `limit` records, and never more than
    /// [`MAX_RECORDS`].
    pub fn with_limit(limit: usize) -> (s: SyncStatusStore)
        ensures
            s.wf(),
            s@ == Seq::<SyncStatus>::empty(),
            s.spec_limit() == if limit <= MAX_RECORDS {
                limit
            } else {
                MAX_RECORDS
            },
    {
        SyncStatusStore {
            records: Vec::new(),
            limit: if limit <= MAX_RECORDS {
                limit
            } else {
                MAX_RECORDS
            },
        }
    }

    /// Most records this store holds.
    pub fn limit(&self) -> (n: usize)
        ensures
            n == self.spec_limit(),
    {
        self.limit
    }

    /// Number of records in the log.
    pub fn len(&self) -> (n: usize)
        ensures
            n == self@.len(),
    {
        self.records.len()
    }

    /// Whether the log holds no record.
    pub fn is_empty(&self) -> (r: bool)
        ensures
            r == (self@.len() == 0),
    {
        self.records.len() == 0
    }

    /// Adds `record` to the end of the log under a fresh identifier and
    /// returns that identifier; whatever identifier `record` carried is
    /// ignored. Nothing already in the log changes.
    ///
    /// Fails, leaving the log as it was, exactly when the log already holds
    /// as many records as its limit allows.
    pub fn append(&mut self, record: SyncStatus) -> (r: Result<i32, SyncError>)
        requires
            old(self).wf(),
        ensures
            final(self).wf(),
            final(self).spec_limit() == old(self).spec_limit(),
            match r {
                Ok(id) => {
                    &&& old(self)@.len() < old(self).spec_limit()
                    &&& id == old(self)@.len() + 1
                    &&& final(self)@ == old(self)@.push(stored_as(record, id))
                },
                Err(e) => {
                    &&& old(self)@.len() == old(self).spec_limit()
                    &&& final(self)@ == old(self)@
                    &&& e is StoreWrite
                    &&& e.text() == "sync status log is full"@
                },
            },
    {
        let n = self.records.len();
        if n >= self.limit {
            return Err(SyncError::StoreWrite(String::from_str("sync status log is full")));
        }
        let id: i32 = (n + 1) as i32;
        self.records.push(
            SyncStatus {
                id,
                last_sync_at: record.last_sync_at,
                sync_status: record.sync_status,
                error_message: record.error_message,
                created_at: record.created_at,
            },
        );
        Ok(id)
    }

    /// The current record: the one with the greatest `(created_at, id)`.
    /// `None` exactly when the log is empty.
    pub fn latest(&self) -> (r: Option<SyncStatus>)
        requires
            self.wf(),
        ensures
            match r {
                None => self@.len() == 0,
                Some(record) => is_latest(self@, record),
            },
    {
        match latest_index(self.records.as_slice()) {
            None => None,
            Some(i) => Some(self.records[i].clone()),
        }
    }

    /// The record at position `index`, counting from 0 in write order.
    pub fn get(&self, index: usize) -> (r: Option<SyncStatus>)
        ensures
            match r {
                None => index >= self@.len(),
                Some(record) => index < self@.len() && record == self@[index as int],
            },
    {
        if index < self.records.len() {
            Some(self.records[index].clone())
        } else {
            None
        }
    }
}

/// In a well-formed store no identifier occurs twice.
pub proof fn lemma_positions_are_distinct(log: Seq<SyncStatus>)
    requires
        ids_are_positions(log),
    ensures
        distinct_ids(log),
{
}

/// A record that is created no earlier than every record of a well-formed
/// log becomes the current record once it is appended.
pub proof fn lemma_append_becomes_latest(log: Seq<SyncStatus>, record: SyncStatus)
    requires
        ids_are_positions(log),
        forall|j: int|
            0 <= j < log.len() ==> (#[trigger] log[j]).created_at.as_nanos()
                <= record.created_at.as_nanos(),
        record.id == log.len() + 1,
    ensures
        is_latest_index(log.push(record), log.len() as int),
        is_latest(log.push(record), record),
{
    let grown = log.push(record);
    assert forall|j: int| 0 <= j < grown.len() implies record_key_le(
        #[trigger] grown[j],
        grown[log.len() as int],
    ) by {
        if j < log.len() {
            assert(grown[j] == log[j]);
        }
    }
    assert forall|j: int| 0 <= j < log.len() implies !record_key_le(
        grown[log.len() as int],
        #[trigger] grown[j],
    ) by {
        assert(grown[j] == log[j]);
    }
    assert(is_latest_index(grown, log.len() as int));
    assert(grown[log.len() as int] == record);
}

} // verus!
