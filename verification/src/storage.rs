//! What is remembered between syncs: for each device and each item of the
//! library, the version of the item that the device was last told of.

use vstd::prelude::*;

verus! {

/// Registers devices. Left to the embedding program to implement.
pub trait DeviceRepo {
    /// The identifier of the device with the given fingerprint, which is
    /// registered first where it is not known.
    fn get_or_register(&mut self, fingerprint: &str) -> Result<String, String>;
}

/// The record that a device was told of an item. `synced_at` is the time at
/// which the item had last been updated when it was delivered (seconds from
/// the UNIX epoch), not the time of the delivery.
#[derive(Debug, Clone, Copy, PartialEq, Eq, Structural)]
pub struct SyncRecord {
    pub id: u128,
    pub device_id: u128,
    pub remote_item_id: u128,
    pub synced_at: i64,
}

impl SyncRecord {
    /// Whether the record is the one of `device_id` for `remote_item_id`.
    pub open spec fn is_for(self, device_id: u128, remote_item_id: u128) -> bool {
        self.device_id == device_id && self.remote_item_id == remote_item_id
    }
}

/// The number of records in `rows` of `device_id` for `remote_item_id`.
pub open spec fn live_rows(rows: Seq<SyncRecord>, device_id: u128, remote_item_id: u128) -> nat
    decreases rows.len(),
{
    if rows.len() == 0 {
        0
    } else {
        live_rows(rows.drop_last(), device_id, remote_item_id) + if rows.last().is_for(
            device_id,
            remote_item_id,
        ) {
            1nat
        } else {
            0nat
        }
    }
}

/// No device has two records for one item.
pub open spec fn unique(rows: Seq<SyncRecord>) -> bool {
    forall|device_id: u128, remote_item_id: u128|
        #[trigger] live_rows(rows, device_id, remote_item_id) <= 1
}

/// `rows` without the records of `device_id` for `remote_item_id`.
pub open spec fn without_pair(rows: Seq<SyncRecord>, device_id: u128, remote_item_id: u128) -> Seq<
    SyncRecord,
>
    decreases rows.len(),
{
    if rows.len() == 0 {
        rows
    } else {
        let before = without_pair(rows.drop_last(), device_id, remote_item_id);
        if rows.last().is_for(device_id, remote_item_id) {
            before
        } else {
            before.push(rows.last())
        }
    }
}

/// `rows` after `record` has taken the place of whatever its device had for
/// its item: the old records for the pair leave, `record` comes last.
pub open spec fn replaced(rows: Seq<SyncRecord>, record: SyncRecord) -> Seq<SyncRecord> {
    without_pair(rows, record.device_id, record.remote_item_id).push(record)
}

/// `rows` after each of `records` has been put in place, in order.
pub open spec fn replaced_all(rows: Seq<SyncRecord>, records: Seq<SyncRecord>) -> Seq<SyncRecord>
    decreases records.len(),
{
    if records.len() == 0 {
        rows
    } else {
        replaced(replaced_all(rows, records.drop_last()), records.last())
    }
}

/// `rows` without the records of `device_id`.
pub open spec fn without_device(rows: Seq<SyncRecord>, device_id: u128) -> Seq<SyncRecord>
    decreases rows.len(),
{
    if rows.len() == 0 {
        rows
    } else {
        let before = without_device(rows.drop_last(), device_id);
        if rows.last().device_id == device_id {
            before
        } else {
            before.push(rows.last())
        }
    }
}

/// The records of `device_id` in `rows`, in order.
pub open spec fn of_device(rows: Seq<SyncRecord>, device_id: u128) -> Seq<SyncRecord>
    decreases rows.len(),
{
    if rows.len() == 0 {
        rows
    } else {
        let before = of_device(rows.drop_last(), device_id);
        if rows.last().device_id == device_id {
            before.push(rows.last())
        } else {
            before
        }
    }
}

/// The last record in `rows` of `device_id` for `remote_item_id`.
pub open spec fn lookup(rows: Seq<SyncRecord>, device_id: u128, remote_item_id: u128) -> Option<
    SyncRecord,
>
    decreases rows.len(),
{
    if rows.len() == 0 {
        None
    } else if rows.last().is_for(device_id, remote_item_id) {
        Some(rows.last())
    } else {
        lookup(rows.drop_last(), device_id, remote_item_id)
    }
}

/// Taking the records of one pair away leaves none for that pair and leaves
/// every other pair as it was.
pub proof fn lemma_without_pair_rows(
    rows: Seq<SyncRecord>,
    device_id: u128,
    remote_item_id: u128,
    d: u128,
    i: u128,
)
    ensures
        live_rows(without_pair(rows, device_id, remote_item_id), d, i) == if d == device_id && i
            == remote_item_id {
            0
        } else {
            live_rows(rows, d, i)
        },
    decreases rows.len(),
{
    if rows.len() > 0 {
        lemma_without_pair_rows(rows.drop_last(), device_id, remote_item_id, d, i);
        let before = without_pair(rows.drop_last(), device_id, remote_item_id);
        if !rows.last().is_for(device_id, remote_item_id) {
            assert(before.push(rows.last()).drop_last() =~= before);
        }
    }
}

/// After a record has been put in place its pair has exactly one record, and
/// every other pair has what it had.
pub proof fn lemma_replaced_rows(rows: Seq<SyncRecord>, record: SyncRecord, d: u128, i: u128)
    ensures
        live_rows(replaced(rows, record), d, i) == if record.is_for(d, i) {
            1
        } else {
            live_rows(rows, d, i)
        },
{
    let before = without_pair(rows, record.device_id, record.remote_item_id);
    lemma_without_pair_rows(rows, record.device_id, record.remote_item_id, d, i);
    assert(before.push(record).drop_last() =~= before);
}

/// Putting a record in place keeps the records unique.
pub proof fn lemma_replaced_unique(rows: Seq<SyncRecord>, record: SyncRecord)
    requires
        unique(rows),
    ensures
        unique(replaced(rows, record)),
        live_rows(replaced(rows, record), record.device_id, record.remote_item_id) == 1,
{
    assert forall|d: u128, i: u128| #[trigger] live_rows(replaced(rows, record), d, i) <= 1 by {
        lemma_replaced_rows(rows, record, d, i);
        assert(live_rows(rows, d, i) <= 1);
    }
    lemma_replaced_rows(rows, record, record.device_id, record.remote_item_id);
}

/// However the replacements of concurrent syncs fall into line, no device
/// ever has two records for one item: any sequence of replacements, applied
/// one after another to unique records, leaves the records unique, and leaves
/// exactly one record for each pair that was replaced.
pub proof fn lemma_replacements_never_duplicate(rows: Seq<SyncRecord>, records: Seq<SyncRecord>)
    requires
        unique(rows),
    ensures
        unique(replaced_all(rows, records)),
        forall|k: int|
            0 <= k < records.len() ==> live_rows(
                replaced_all(rows, records),
                (#[trigger] records[k]).device_id,
                records[k].remote_item_id,
            ) == 1,
    decreases records.len(),
{
    if records.len() > 0 {
        let earlier = records.drop_last();
        let mid = replaced_all(rows, earlier);
        lemma_replacements_never_duplicate(rows, earlier);
        lemma_replaced_unique(mid, records.last());
        assert forall|k: int| 0 <= k < records.len() implies live_rows(
            replaced_all(rows, records),
            (#[trigger] records[k]).device_id,
            records[k].remote_item_id,
        ) == 1 by {
            lemma_replaced_rows(
                mid,
                records.last(),
                records[k].device_id,
                records[k].remote_item_id,
            );
            if k < records.len() - 1 {
                assert(earlier[k] == records[k]);
            }
        }
    }
}

/// Taking the records of one device away leaves none for it and leaves every
/// other device what it had.
pub proof fn lemma_without_device_rows(rows: Seq<SyncRecord>, device_id: u128, d: u128, i: u128)
    ensures
        live_rows(without_device(rows, device_id), d, i) == if d == device_id {
            0
        } else {
            live_rows(rows, d, i)
        },
    decreases rows.len(),
{
    if rows.len() > 0 {
        lemma_without_device_rows(rows.drop_last(), device_id, d, i);
        let before = without_device(rows.drop_last(), device_id);
        if rows.last().device_id != device_id {
            assert(before.push(rows.last()).drop_last() =~= before);
        }
    }
}

/// A pair has a record exactly if it has a live row.
pub proof fn lemma_lookup_rows(rows: Seq<SyncRecord>, device_id: u128, remote_item_id: u128)
    ensures
        lookup(rows, device_id, remote_item_id) is Some <==> live_rows(
            rows,
            device_id,
            remote_item_id,
        ) > 0,
        lookup(rows, device_id, remote_item_id) matches Some(r) ==> r.is_for(
            device_id,
            remote_item_id,
        ) && rows.contains(r),
    decreases rows.len(),
{
    if rows.len() > 0 {
        lemma_lookup_rows(rows.drop_last(), device_id, remote_item_id);
        if rows.last().is_for(device_id, remote_item_id) {
            assert(rows[rows.len() - 1] == rows.last());
        } else {
            match lookup(rows.drop_last(), device_id, remote_item_id) {
                Some(r) => {
                    let earlier = rows.drop_last();
                    let k = choose|k: int| 0 <= k < earlier.len() && earlier[k] == r;
                    assert(rows[k] == r);
                },
                None => {},
            }
        }
    }
}

/// The records of all devices. Its view is the records in the order in which
/// they were put in place; no device has two records for one item.
pub struct SyncStateStore {
    records: Vec<SyncRecord>,
}

impl View for SyncStateStore {
    type V = Seq<SyncRecord>;

    closed spec fn view(&self) -> Seq<SyncRecord> {
        self.records@
    }
}

impl SyncStateStore {
    /// Whether the store is in order: no device has two records for one item.
    pub open spec fn wf(&self) -> bool {
        unique(self@)
    }

    /// A store without records.
    pub fn new() -> (r: SyncStateStore)
        ensures
            r@ == Seq::<SyncRecord>::empty(),
            r.wf(),
    {
        SyncStateStore { records: Vec::new() }
    }

    /// The number of records.
    pub fn len(&self) -> (r: usize)
        ensures
            r == self@.len(),
    {
        self.records.len()
    }

    /// The record of `device_id` for `remote_item_id`, if there is one.
    pub fn get(&self, device_id: u128, remote_item_id: u128) -> (r: Option<SyncRecord>)
        ensures
            r == lookup(self@, device_id, remote_item_id),
    {
        let mut i: usize = self.records.len();
        assert(self.records@.take(i as int) =~= self.records@);
        while i > 0
            invariant
                i <= self.records@.len(),
                lookup(self.records@, device_id, remote_item_id) == lookup(
                    self.records@.take(i as int),
                    device_id,
                    remote_item_id,
                ),
            decreases i,
        {
            i = i - 1;
            let row = self.records[i];
            proof {
                let upto = self.records@.take(i + 1);
                assert(upto.last() == row);
                assert(upto.drop_last() =~= self.records@.take(i as int));
            }
            if row.device_id == device_id && row.remote_item_id == remote_item_id {
                return Some(row);
            }
        }
        None
    }

    /// Puts `record` in the place of whatever its device had for its item, in
    /// one step.
    pub fn replace(&mut self, record: SyncRecord)
        requires
            old(self).wf(),
        ensures
            final(self)@ == replaced(old(self)@, record),
            final(self).wf(),
            live_rows(final(self)@, record.device_id, record.remote_item_id) == 1,
    {
        let mut kept: Vec<SyncRecord> = Vec::new();
        let mut i: usize = 0;
        while i < self.records.len()
            invariant
                i <= self.records@.len(),
                kept@ == without_pair(
                    self.records@.take(i as int),
                    record.device_id,
                    record.remote_item_id,
                ),
            decreases self.records.len() - i,
        {
            let row = self.records[i];
            proof {
                let upto = self.records@.take(i + 1);
                assert(upto.last() == row);
                assert(upto.drop_last() =~= self.records@.take(i as int));
            }
            if !(row.device_id == record.device_id && row.remote_item_id
                == record.remote_item_id) {
                kept.push(row);
            }
            i = i + 1;
        }
        proof {
            assert(self.records@.take(self.records@.len() as int) =~= self.records@);
            lemma_replaced_unique(self.records@, record);
        }
        kept.push(record);
        self.records = kept;
    }

    /// The records of `device_id`, in order.
    pub fn records_for_device(&self, device_id: u128) -> (r: Vec<SyncRecord>)
        ensures
            r@ == of_device(self@, device_id),
    {
        let mut out: Vec<SyncRecord> = Vec::new();
        let mut i: usize = 0;
        while i < self.records.len()
            invariant
                i <= self.records@.len(),
                out@ == of_device(self.records@.take(i as int), device_id),
            decreases self.records.len() - i,
        {
            let row = self.records[i];
            proof {
                let upto = self.records@.take(i + 1);
                assert(upto.last() == row);
                assert(upto.drop_last() =~= self.records@.take(i as int));
            }
            if row.device_id == device_id {
                out.push(row);
            }
            i = i + 1;
        }
        assert(self.records@.take(self.records@.len() as int) =~= self.records@);
        out
    }

    /// Forgets a device: its records go with it.
    pub fn delete_device(&mut self, device_id: u128)
        requires
            old(self).wf(),
        ensures
            final(self)@ == without_device(old(self)@, device_id),
            final(self).wf(),
            of_device(final(self)@, device_id).len() == 0,
    {
        let mut kept: Vec<SyncRecord> = Vec::new();
        let mut i: usize = 0;
        while i < self.records.len()
            invariant
                i <= self.records@.len(),
                kept@ == without_device(self.records@.take(i as int), device_id),
            decreases self.records.len() - i,
        {
            let row = self.records[i];
            proof {
                let upto = self.records@.take(i + 1);
                assert(upto.last() == row);
                assert(upto.drop_last() =~= self.records@.take(i as int));
            }
            if row.device_id != device_id {
                kept.push(row);
            }
            i = i + 1;
        }
        proof {
            let rows = self.records@;
            assert(rows.take(rows.len() as int) =~= rows);
            assert forall|d: u128, i: u128| #[trigger]
                live_rows(without_device(rows, device_id), d, i) <= 1 by {
                lemma_without_device_rows(rows, device_id, d, i);
                assert(live_rows(rows, d, i) <= 1);
            }
            lemma_of_device_gone(rows, device_id);
        }
        self.records = kept;
    }
}

/// A device that was forgotten has no records.
pub proof fn lemma_of_device_gone(rows: Seq<SyncRecord>, device_id: u128)
    ensures
        of_device(without_device(rows, device_id), device_id).len() == 0,
    decreases rows.len(),
{
    if rows.len() > 0 {
        lemma_of_device_gone(rows.drop_last(), device_id);
        let before = without_device(rows.drop_last(), device_id);
        if rows.last().device_id != device_id {
            assert(before.push(rows.last()).drop_last() =~= before);
        }
    }
}

} // verus!
