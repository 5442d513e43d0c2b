//! Upload and access ledger: one metadata row per stored object,
//! recording provenance at upload time and access bookkeeping on each
//! download. Writes here are best-effort from the caller's point of
//! view; absence of a row is never an error.

use vstd::prelude::*;

verus! {

/// One metadata row, keyed by object identifier.
#[derive(Debug)]
pub struct UploadRecord {
    pub identifier: String,
    pub created_on: u64,
    pub api_key_used: String,
    pub last_accessed: u64,
    pub times_accessed: u64,
}

/// The metadata table, in insertion order.
#[derive(Debug)]
pub struct Ledger {
    records: Vec<UploadRecord>,
}

/// Index of the first row whose identifier matches `id`, if any.
pub open spec fn row_from(records: Seq<UploadRecord>, id: Seq<char>, i: int) -> Option<int>
    decreases records.len() - i,
{
    if i < 0 || i >= records.len() {
        None
    } else if records[i].identifier@ == id {
        Some(i)
    } else {
        row_from(records, id, i + 1)
    }
}

pub open spec fn row_of(records: Seq<UploadRecord>, id: Seq<char>) -> Option<int> {
    row_from(records, id, 0)
}

/// The access counter after one more access: one higher, except at the
/// machine ceiling, where it stays put.
pub open spec fn bumped(times: u64) -> u64 {
    if times < u64::MAX {
        (times + 1) as u64
    } else {
        times
    }
}

/// `after` is `before` with one access to `id` recorded at time `now`:
/// the first matching row has its counter bumped and its last-access
/// stamp set to `now`; no row, no change.
pub open spec fn access_recorded(
    before: Seq<UploadRecord>,
    after: Seq<UploadRecord>,
    id: Seq<char>,
    now: u64,
) -> bool {
    match row_of(before, id) {
        None => after == before,
        Some(i) => after == before.update(
            i,
            UploadRecord {
                last_accessed: now,
                times_accessed: bumped(before[i].times_accessed),
                ..before[i]
            },
        ),
    }
}

impl View for Ledger {
    type V = Seq<UploadRecord>;

    closed spec fn view(&self) -> Seq<UploadRecord> {
        self.records@
    }
}

/// A found row's index lies in range and matches `id`, and every row
/// before it does not.
pub proof fn lemma_row_from_found(records: Seq<UploadRecord>, id: Seq<char>, start: int, i: int)
    requires
        row_from(records, id, start) == Some(i),
        0 <= start,
    ensures
        start <= i < records.len(),
        records[i].identifier@ == id,
        forall|j: int| start <= j < i ==> records[j].identifier@ != id,
    decreases records.len() - start,
{
    if start < records.len() && records[start].identifier@ != id {
        lemma_row_from_found(records, id, start + 1, i);
    }
}

impl Ledger {
    /// An empty ledger.
    pub fn new() -> (r: Ledger)
        ensures
            r@ == Seq::<UploadRecord>::empty(),
    {
        Ledger { records: Vec::new() }
    }

    /// How many rows the ledger holds.
    pub fn record_count(&self) -> (r: usize)
        ensures
            r == self@.len(),
    {
        self.records.len()
    }

    /// The first row for `identifier`, if any.
    pub fn get_record(&self, identifier: &String) -> (r: Option<&UploadRecord>)
        ensures
            (r matches Some(rec) ==> row_of(self@, identifier@) matches Some(i) && *rec == self@[i]),
            (r is None ==> row_of(self@, identifier@) is None),
    {
        let n = self.records.len();
        let mut i: usize = 0;
        while i < n
            invariant
                0 <= i <= n,
                n == self.records.len(),
                row_of(self@, identifier@) == row_from(self@, identifier@, i as int),
            decreases n - i,
        {
            if self.records[i].identifier == *identifier {
                return Some(&self.records[i]);
            }
            i = i + 1;
        }
        None
    }

    /// Record a newly created object's provenance: who authenticated it
    /// and when. A row for the identifier is created exactly once; if one
    /// already exists (a colliding identifier), the ledger is unchanged.
    pub fn record_upload(&mut self, identifier: &String, api_key: &String, now: u64)
        ensures
            (row_of(old(self)@, identifier@) is Some ==> final(self)@ == old(self)@),
            (row_of(old(self)@, identifier@) is None ==> final(self)@ == old(self)@.push(
                UploadRecord {
                    identifier: *identifier,
                    created_on: now,
                    api_key_used: *api_key,
                    last_accessed: now,
                    times_accessed: 0,
                },
            )),
    {
        if self.get_record(identifier).is_some() {
            return ;
        }
        self.records.push(
            UploadRecord {
                identifier: identifier.clone(),
                created_on: now,
                api_key_used: api_key.clone(),
                last_accessed: now,
                times_accessed: 0,
            },
        );
    }

    /// Record one access to `identifier` at time `now`: bump the access
    /// counter and set the last-access stamp of its row. With no row for
    /// the identifier this is a no-op, not an error.
    pub fn record_access(&mut self, identifier: &String, now: u64)
        ensures
            access_recorded(old(self)@, final(self)@, identifier@, now),
    {
        let n = self.records.len();
        let mut i: usize = 0;
        while i < n
            invariant
                0 <= i <= n,
                n == self.records.len(),
                self@ == old(self)@,
                row_of(self@, identifier@) == row_from(self@, identifier@, i as int),
            decreases n - i,
        {
            if self.records[i].identifier == *identifier {
                let times = self.records[i].times_accessed;
                let bumped_times: u64 = if times < u64::MAX {
                    times + 1
                } else {
                    times
                };
                let updated = UploadRecord {
                    identifier: self.records[i].identifier.clone(),
                    created_on: self.records[i].created_on,
                    api_key_used: self.records[i].api_key_used.clone(),
                    last_accessed: now,
                    times_accessed: bumped_times,
                };
                self.records.set(i, updated);
                return ;
            }
            i = i + 1;
        }
    }
}

/// Access bookkeeping: recording one access to a present identifier
/// keeps every row's identity and every other row intact, raises that
/// row's access counter by exactly one (below the machine ceiling), and
/// moves its last-access stamp to the given time, no earlier than the
/// stamp it replaces when the clock has not gone backwards.
pub proof fn lemma_access_bookkeeping(
    before: Seq<UploadRecord>,
    after: Seq<UploadRecord>,
    id: Seq<char>,
    now: u64,
    i: int,
)
    requires
        access_recorded(before, after, id, now),
        row_of(before, id) == Some(i),
        before[i].times_accessed < u64::MAX,
        now >= before[i].last_accessed,
    ensures
        after.len() == before.len(),
        after[i].identifier == before[i].identifier,
        after[i].created_on == before[i].created_on,
        after[i].api_key_used == before[i].api_key_used,
        after[i].times_accessed == before[i].times_accessed + 1,
        after[i].last_accessed == now,
        after[i].last_accessed >= before[i].last_accessed,
        forall|j: int| 0 <= j < before.len() && j != i ==> after[j] == before[j],
{
    lemma_row_from_found(before, id, 0, i);
}

} // verus!
