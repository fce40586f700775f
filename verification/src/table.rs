//! Lists of records in which no two records have the same key.
//!
//! The transaction buffer, the cache and the in-memory store all keep their
//! records in such a list. This module says what it is to look a key up in
//! one and to write a record into one, and implements both on `Vec<DbRecord>`.
use crate::types::{DbRecord, KeyView, RecordKey, RecordView, record_views};
use vstd::prelude::*;

verus! {

/// Some record of the list is stored under `key`.
pub open spec fn has_key(records: Seq<RecordView>, key: KeyView) -> bool {
    exists|i: int| 0 <= i < records.len() && (#[trigger] records[i]).key() == key
}

/// `record` is one of the records of the list.
pub open spec fn is_member(records: Seq<RecordView>, record: RecordView) -> bool {
    exists|j: int| 0 <= j < records.len() && #[trigger] records[j] == record
}

/// No two records of the list have the same key.
pub open spec fn unique_keys(records: Seq<RecordView>) -> bool {
    forall|i: int, j: int|
        0 <= i < j < records.len() ==> (#[trigger] records[i]).key() != (#[trigger] records[j]).key()
}

/// Where the record with `key` stands, if the list has one.
pub open spec fn position(records: Seq<RecordView>, key: KeyView) -> int {
    choose|i: int| 0 <= i < records.len() && (#[trigger] records[i]).key() == key
}

/// The record stored under `key`, if any.
pub open spec fn lookup(records: Seq<RecordView>, key: KeyView) -> Option<RecordView> {
    if has_key(records, key) {
        Some(records[position(records, key)])
    } else {
        None
    }
}

/// The list after `record` was written: it takes the place of the record
/// with the same key, or comes last where there was none.
pub open spec fn upsert(records: Seq<RecordView>, record: RecordView) -> Seq<RecordView> {
    if has_key(records, record.key()) {
        records.update(position(records, record.key()), record)
    } else {
        records.push(record)
    }
}

/// The list after the records of `batch` were written one after the other.
pub open spec fn upsert_all(records: Seq<RecordView>, batch: Seq<RecordView>) -> Seq<RecordView>
    decreases batch.len(),
{
    if batch.len() == 0 {
        records
    } else {
        upsert(upsert_all(records, batch.drop_last()), batch.last())
    }
}

/// The list as a map from key to record.
pub open spec fn as_map(records: Seq<RecordView>) -> Map<KeyView, RecordView> {
    Map::new(|key: KeyView| has_key(records, key), |key: KeyView| records[position(records, key)])
}

/// The map after the records of `batch` were stored one after the other.
pub open spec fn store_all(stored: Map<KeyView, RecordView>, batch: Seq<RecordView>) -> Map<
    KeyView,
    RecordView,
>
    decreases batch.len(),
{
    if batch.len() == 0 {
        stored
    } else {
        store_all(stored, batch.drop_last()).insert(batch.last().key(), batch.last())
    }
}

/// In a list without repeated keys, the record at `i` is the one that its
/// key finds.
pub proof fn lemma_position(records: Seq<RecordView>, i: int)
    requires
        unique_keys(records),
        0 <= i < records.len(),
    ensures
        has_key(records, records[i].key()),
        position(records, records[i].key()) == i,
        lookup(records, records[i].key()) == Some(records[i]),
{
}

/// Writing a record keeps the keys distinct, makes the record the one that
/// its key finds, and leaves what every other key finds.
pub proof fn lemma_upsert(records: Seq<RecordView>, record: RecordView)
    requires
        unique_keys(records),
    ensures
        unique_keys(upsert(records, record)),
        forall|key: KeyView|
            #![trigger lookup(upsert(records, record), key)]
            lookup(upsert(records, record), key) == if key == record.key() {
                Some(record)
            } else {
                lookup(records, key)
            },
        forall|key: KeyView|
            #![trigger has_key(upsert(records, record), key)]
            has_key(upsert(records, record), key) == (key == record.key() || has_key(
                records,
                key,
            )),
{
    let after = upsert(records, record);
    let slot = if has_key(records, record.key()) {
        position(records, record.key())
    } else {
        records.len() as int
    };
    assert(0 <= slot < after.len() && after[slot] == record);
    assert forall|key: KeyView| #![trigger has_key(after, key)]
        has_key(after, key) == (key == record.key() || has_key(records, key)) by {
        if has_key(records, key) && key != record.key() {
            let i = position(records, key);
            assert(after[i] == records[i]);
        }
    }
}

/// Writing a record into the list is inserting it into the list's map.
pub proof fn lemma_upsert_as_map(records: Seq<RecordView>, record: RecordView)
    requires
        unique_keys(records),
    ensures
        as_map(upsert(records, record)) == as_map(records).insert(record.key(), record),
{
    lemma_upsert(records, record);
}

/// Writing a batch keeps the keys distinct, and is storing the batch into
/// the list's map.
pub proof fn lemma_upsert_all(records: Seq<RecordView>, batch: Seq<RecordView>)
    requires
        unique_keys(records),
    ensures
        unique_keys(upsert_all(records, batch)),
        as_map(upsert_all(records, batch)) == store_all(as_map(records), batch),
    decreases batch.len(),
{
    if batch.len() > 0 {
        lemma_upsert_all(records, batch.drop_last());
        lemma_upsert(upsert_all(records, batch.drop_last()), batch.last());
    }
}

/// Every record of a stored batch is found under its key afterwards, unless
/// a later record of the batch has the same key.
pub proof fn lemma_store_all_holds(stored: Map<KeyView, RecordView>, batch: Seq<RecordView>, i: int)
    requires
        0 <= i < batch.len(),
        forall|j: int| i < j < batch.len() ==> (#[trigger] batch[j]).key() != batch[i].key(),
    ensures
        store_all(stored, batch).contains_key(batch[i].key()),
        store_all(stored, batch)[batch[i].key()] == batch[i],
    decreases batch.len(),
{
    if i < batch.len() - 1 {
        let rest = batch.drop_last();
        lemma_store_all_holds(stored, rest, i);
    }
}

/// Where the record with `key` stands in `records`, if there is one.
pub fn find_record(records: &Vec<DbRecord>, key: &RecordKey) -> (found: Option<usize>)
    ensures
        match found {
            Some(i) => i < records.len() && records[i as int]@.key() == key@,
            None => !has_key(record_views(records@), key@),
        },
{
    let mut i: usize = 0;
    while i < records.len()
        invariant
            i <= records.len(),
            forall|j: int| 0 <= j < i ==> (#[trigger] records[j])@.key() != key@,
        decreases records.len() - i,
    {
        if records[i].has_key(key) {
            return Some(i);
        }
        i += 1;
    }
    None
}

/// Writes `record` into `records` and returns where it stands.
pub fn upsert_record(records: &mut Vec<DbRecord>, record: DbRecord) -> (slot: usize)
    requires
        unique_keys(record_views(old(records)@)),
    ensures
        record_views(final(records)@) == upsert(record_views(old(records)@), record@),
        unique_keys(record_views(final(records)@)),
        slot < final(records).len(),
        final(records)[slot as int]@ == record@,
        has_key(record_views(old(records)@), record@.key()) ==> slot == position(
            record_views(old(records)@),
            record@.key(),
        ) && final(records).len() == old(records).len(),
        !has_key(record_views(old(records)@), record@.key()) ==> slot == old(records).len()
            && final(records).len() == old(records).len() + 1,
{
    let ghost before = record_views(records@);
    let key = record.key();
    let found = find_record(records, &key);
    match found {
        Some(i) => {
            proof {
                lemma_position(before, i as int);
            }
            records[i] = record;
            assert(record_views(records@) =~= upsert(before, record@));
            i
        },
        None => {
            let slot: usize = records.len();
            records.push(record);
            slot
        },
    }
}

} // verus!
