//! The storage mediator: it routes reads and writes between the open
//! transaction, the cache and the backing store.
//!
//! A write goes to the transaction buffer while a transaction is open, and
//! to the cache and the store otherwise. A read asks the buffer first, then
//! the cache, then the store, and leaves what the store gave in the cache.
//! A commit moves what was staged into the cache and then into the store.
//!
//! The store is any [`Database`]. Where an operation calls it, the
//! operation's contract says what holds whatever the store answered. The
//! step before the call and the step that takes the store's answer are
//! functions of their own, so that a caller whose store is asynchronous can
//! take the mediator through the steps and make the call itself.
use crate::cache::{CacheModel, TimedCache};
use crate::database::{
    Database, are_states_of, is_batch_answer, is_stored_answer, is_user_data, row_is_answer,
    rows_are_answers, stored_with,
};
use crate::error::{StorageError, failed_not_found, failed_transaction, store_failed};
use crate::laws::law_residual_keys;
use crate::merge::{
    merge_states, merge_versions, merged_user_data, put_versions, transaction_overrides,
};
use crate::model::{
    ManagerModel, METRIC_BATCH_GET, METRIC_BATCH_SET, METRIC_GET, METRIC_GET_USER_DATA,
    METRIC_GET_USER_STATE, METRIC_GET_USER_STATE_VERSIONS, METRIC_READ_TIME, METRIC_SET,
    METRIC_TOMBSTONE, METRIC_WRITE_TIME, NUM_METRICS, cache_batch_put, cache_flushed, cache_hit,
    cache_hit_test, cache_put, cache_resumed, state_key_views, stored_data, stored_state,
    tombstones,
};
use crate::report::{COUNTS_HEAD, TIMING_HEAD, push_entry};
use crate::select::{chosen_state, states_of};
use crate::table::store_all;
use crate::transaction::{Transaction, commit_order, committable};
use crate::types::{
    AkdLabel, DbRecord, DbSetState, KeyData, RecordKey, RecordView, UserVersion,
    UserVersionView, ValueState, ValueStateKey, ValueStateRetrievalFlag, ValueStateView,
    gave_record, given_record, key_views, label_views, record_view, record_views, version_views,
};
use vstd::prelude::*;

verus! {

/// The tombstones of the value states among the records.
pub fn tombstones_of(records: &Vec<DbRecord>) -> (marked: Vec<DbRecord>)
    ensures
        record_views(marked@) == tombstones(record_views(records@)),
{
    let mut marked: Vec<DbRecord> = Vec::new();
    let ghost views = record_views(records@);
    let mut i: usize = 0;
    while i < records.len()
        invariant
            i <= records.len(),
            views == record_views(records@),
            record_views(marked@) == tombstones(views.take(i as int)),
        decreases records.len() - i,
    {
        let ghost before = record_views(marked@);
        proof {
            assert(views.take(i + 1).drop_last() =~= views.take(i as int));
        }
        if let DbRecord::ValueState(state) = &records[i] {
            let marker = DbRecord::ValueState(state.tombstoned());
            marked.push(marker);
            assert(record_views(marked@) =~= before.push(
                RecordView::ValueState(state@.tombstoned()),
            ));
        }
        i += 1;
    }
    assert(views.take(records.len() as int) =~= views);
    marked
}

/// Whether `key` is one of `keys`.
fn key_listed(keys: &Vec<RecordKey>, key: &RecordKey) -> (listed: bool)
    ensures
        listed == key_views(keys@).contains(key@),
{
    let ghost views = key_views(keys@);
    let mut i: usize = 0;
    while i < keys.len()
        invariant
            i <= keys.len(),
            views == key_views(keys@),
            forall|j: int| 0 <= j < i ==> (#[trigger] views[j]) != key@,
        decreases keys.len() - i,
    {
        if keys[i].same_as(key) {
            assert(views[i as int] == key@);
            return true;
        }
        i += 1;
    }
    false
}

/// The keys of value states as keys of records.
fn record_keys(keys: &Vec<ValueStateKey>) -> (wrapped: Vec<RecordKey>)
    ensures
        wrapped.len() == keys.len(),
        forall|i: int| 0 <= i < keys.len() ==> (#[trigger] wrapped[i])@ == keys[i]@,
{
    let mut wrapped: Vec<RecordKey> = Vec::new();
    let mut i: usize = 0;
    while i < keys.len()
        invariant
            i <= keys.len(),
            wrapped.len() == i,
            forall|j: int| 0 <= j < i ==> (#[trigger] wrapped[j])@ == keys[j]@,
        decreases keys.len() - i,
    {
        wrapped.push(RecordKey::ValueState(keys[i].clone()));
        i += 1;
    }
    wrapped
}

/// The mediator between a directory and its backing store.
pub struct StorageManager<Db: Database> {
    cache: Option<TimedCache>,
    transaction: Transaction,
    /// The backing store.
    pub db: Db,
    metrics: [u64; NUM_METRICS],
    counting: bool,
}

impl<Db: Database> View for StorageManager<Db> {
    type V = ManagerModel;

    closed spec fn view(&self) -> ManagerModel {
        ManagerModel {
            cache: match self.cache {
                Some(cache) => Some(cache@),
                None => None,
            },
            transaction: self.transaction@,
            metrics: self.metrics@,
            counting: self.counting,
        }
    }
}

impl<Db: Database> StorageManager<Db> {
    /// The backing store.
    pub closed spec fn store(&self) -> Db {
        self.db
    }

    /// The parts of the mediator, and its store, are well formed.
    pub open spec fn wf(&self) -> bool {
        self@.wf() && self.store().inv()
    }

    /// A mediator without a cache.
    pub fn new_no_cache(db: Db) -> (manager: Self)
        requires
            db.inv(),
        ensures
            manager.wf(),
            manager@ == ManagerModel::fresh(None),
            manager.store() == db,
    {
        let manager = StorageManager {
            cache: None,
            transaction: Transaction::new(),
            db,
            metrics: [0u64; NUM_METRICS],
            counting: false,
        };
        assert(manager@.metrics =~= Seq::new(NUM_METRICS as nat, |i: int| 0u64));
        manager
    }

    /// A mediator with a cache. The times are in milliseconds; where one is
    /// not given, the cache's default stands in.
    pub fn new(
        db: Db,
        cache_item_lifetime_ms: Option<u64>,
        cache_limit_bytes: Option<usize>,
        cache_clean_frequency_ms: Option<u64>,
    ) -> (manager: Self)
        requires
            db.inv(),
        ensures
            manager.wf(),
            manager@ == ManagerModel::fresh(
                Some(
                    CacheModel::fresh(
                        cache_item_lifetime_ms,
                        cache_limit_bytes,
                        cache_clean_frequency_ms,
                    ),
                ),
            ),
            manager.store() == db,
    {
        let manager = StorageManager {
            cache: Some(
                TimedCache::new(cache_item_lifetime_ms, cache_limit_bytes, cache_clean_frequency_ms),
            ),
            transaction: Transaction::new(),
            db,
            metrics: [0u64; NUM_METRICS],
            counting: false,
        };
        assert(manager@.metrics =~= Seq::new(NUM_METRICS as nat, |i: int| 0u64));
        manager
    }

    /// Says whether the counters are to be kept. They are not, until this
    /// is called.
    pub fn set_runtime_metrics(&mut self, enabled: bool)
        ensures
            final(self)@ == (ManagerModel { counting: enabled, ..old(self)@ }),
            final(self).store() == old(self).store(),
    {
        self.counting = enabled;
    }

    /// The report on the store: what the counters stand at.
    pub fn counters_report(&self) -> (text: String)
        ensures
            text@ == self@.report(),
    {
        let mut text = String::new();
        push_entry(&mut text, COUNTS_HEAD, self.metrics[METRIC_SET], ", \n");
        push_entry(&mut text, "    BATCH SET ", self.metrics[METRIC_BATCH_SET], ", \n");
        push_entry(&mut text, "    GET ", self.metrics[METRIC_GET], ", \n");
        push_entry(&mut text, "    BATCH GET ", self.metrics[METRIC_BATCH_GET], "\n");
        push_entry(&mut text, "    TOMBSTONE ", self.metrics[METRIC_TOMBSTONE], "\n");
        push_entry(&mut text, "    GET USER STATE ", self.metrics[METRIC_GET_USER_STATE], "\n");
        push_entry(&mut text, "    GET USER DATA ", self.metrics[METRIC_GET_USER_DATA], "\n");
        push_entry(
            &mut text,
            "    GET USER STATE VERSIONS ",
            self.metrics[METRIC_GET_USER_STATE_VERSIONS],
            "\n",
        );
        push_entry(&mut text, TIMING_HEAD, self.metrics[METRIC_READ_TIME], " ms\n");
        push_entry(&mut text, "    TIME WRITE ", self.metrics[METRIC_WRITE_TIME], " ms");
        text
    }

    /// The reports of the mediator, each to be logged as one message: on the
    /// cache where there is one, on the transaction buffer, and on the
    /// store.
    pub fn log_metrics(&self) -> (reports: Vec<String>)
        ensures
            reports@.len() == self@.reports().len(),
            forall|i: int| 0 <= i < reports@.len() ==> (#[trigger] reports@[i])@ == self@.reports()[i],
    {
        let mut reports: Vec<String> = Vec::new();
        match &self.cache {
            Some(cache) => {
                reports.push(cache.log_metrics());
            },
            None => {},
        }
        reports.push(self.transaction.log_metrics());
        reports.push(self.counters_report());
        reports
    }

    /// How many records the cache holds, where the mediator has a cache.
    pub fn cached(&self) -> (count: Option<usize>)
        ensures
            count == match self@.cache {
                Some(cache) => Some(cache.entries.records.len() as usize),
                None => None,
            },
    {
        match &self.cache {
            Some(cache) => Some(cache.len()),
            None => None,
        }
    }

    /// What a counter stands at.
    pub fn metric(&self, metric: usize) -> (count: u64)
        requires
            metric < NUM_METRICS,
        ensures
            count == self@.metrics[metric as int],
    {
        self.metrics[metric]
    }

    /// Adds one to a counter, if the counters are kept.
    pub fn increment_metric(&mut self, metric: usize)
        requires
            metric < NUM_METRICS,
        ensures
            final(self)@ == old(self)@.counted(metric as int),
            final(self).store() == old(self).store(),
    {
        if self.counting {
            let count: u64 = self.metrics[metric];
            self.metrics[metric] = count.wrapping_add(1);
        }
    }

    /// Adds the milliseconds that a call of the store took to a counter, if
    /// the counters are kept.
    pub fn tic_toc(&mut self, metric: usize, elapsed_ms: u64)
        requires
            metric < NUM_METRICS,
        ensures
            final(self)@ == old(self)@.added(metric as int, elapsed_ms),
            final(self).store() == old(self).store(),
    {
        if self.counting {
            let count: u64 = self.metrics[metric];
            self.metrics[metric] = count.wrapping_add(elapsed_ms);
        }
    }

    /// Opens a transaction, and disables the cleaning of the cache for as
    /// long as it is open. Returns false, and changes nothing, where one is
    /// open already.
    pub fn begin_transaction(&mut self) -> (started: bool)
        ensures
            started == !old(self)@.transaction.active,
            final(self)@ == old(self)@.after_begin(),
            final(self).store() == old(self).store(),
    {
        let started = self.transaction.begin_transaction();
        if started {
            match &mut self.cache {
                Some(cache) => {
                    cache.disable_clean();
                },
                None => {},
            }
        }
        started
    }

    /// Puts another transaction buffer in the place of the mediator's, and
    /// returns the one that was there. Mediators that share a cache and a
    /// store each bring their own buffer this way.
    pub fn replace_transaction(&mut self, transaction: Transaction) -> (previous: Transaction)
        ensures
            old(self).wf() && transaction.wf() ==> final(self).wf() && previous.wf(),
            final(self).store() == old(self).store(),
            previous@ == old(self)@.transaction,
            final(self)@ == (ManagerModel { transaction: transaction@, ..old(self)@ }),
    {
        let mut previous = transaction;
        std::mem::swap(&mut previous, &mut self.transaction);
        previous
    }

    /// Whether a transaction is open.
    pub fn is_transaction_active(&self) -> (active: bool)
        ensures
            active == self@.transaction.active,
    {
        self.transaction.is_transaction_active()
    }

    /// What is returned for a write that the store has answered: the
    /// store's answer, with the write counted where it succeeded.
    pub fn finish_write(&mut self, outcome: Result<(), StorageError>, metric: usize) -> (result:
        Result<(), StorageError>)
        requires
            metric < NUM_METRICS,
        ensures
            result == outcome,
            final(self)@ == if outcome is Ok {
                old(self)@.counted(metric as int)
            } else {
                old(self)@
            },
            final(self).store() == old(self).store(),
    {
        if outcome.is_ok() {
            self.increment_metric(metric);
        }
        outcome
    }

    /// Closes the transaction and discards what was staged; the cache is
    /// cleaned again from `now` on. Fails, and changes nothing, where no
    /// transaction is open.
    pub fn rollback_transaction(&mut self, now: u64) -> (result: Result<(), StorageError>)
        requires
            old(self).wf(),
        ensures
            final(self).wf(),
            final(self).store() == old(self).store(),
            result is Ok <==> old(self)@.transaction.active,
            result is Err ==> failed_transaction(result),
            final(self)@ == if result is Ok {
                old(self)@.after_close(now)
            } else {
                old(self)@
            },
    {
        match self.transaction.rollback_transaction() {
            Ok(_) => {},
            Err(error) => {
                return Err(error);
            },
        }
        self.resume_cleaning(now);
        Ok(())
    }

    /// Enables the cleaning of the cache again.
    fn resume_cleaning(&mut self, now: u64)
        requires
            old(self).wf(),
        ensures
            final(self).wf(),
            final(self).store() == old(self).store(),
            final(self)@ == (ManagerModel {
                cache: cache_resumed(old(self)@.cache, now),
                ..old(self)@
            }),
    {
        match &mut self.cache {
            Some(cache) => {
                cache.enable_clean(now);
            },
            None => {},
        }
    }

    /// Puts a record into the cache, where there is one.
    fn cache_record(&mut self, record: &DbRecord, now: u64)
        requires
            old(self).wf(),
        ensures
            final(self).wf(),
            final(self).store() == old(self).store(),
            final(self)@ == (ManagerModel {
                cache: cache_put(old(self)@.cache, record@, now),
                ..old(self)@
            }),
    {
        match &mut self.cache {
            Some(cache) => {
                cache.put(record, now);
            },
            None => {},
        }
    }

    /// Puts records into the cache, where there is one.
    fn cache_records(&mut self, records: &Vec<DbRecord>, now: u64)
        requires
            old(self).wf(),
        ensures
            final(self).wf(),
            final(self).store() == old(self).store(),
            final(self)@ == (ManagerModel {
                cache: cache_batch_put(old(self)@.cache, record_views(records@), now),
                ..old(self)@
            }),
    {
        match &mut self.cache {
            Some(cache) => {
                cache.batch_put(records, now);
            },
            None => {},
        }
    }

    /// Looks a key up in the cache at `now`, past the transaction: what the
    /// cache serves, and nothing where the mediator has no cache.
    pub fn cache_lookup(&mut self, key: &RecordKey, now: u64) -> (found: Option<DbRecord>)
        requires
            old(self).wf(),
        ensures
            final(self).wf(),
            final(self).store() == old(self).store(),
            record_view(found) == cache_hit(old(self)@.cache, key@, now),
            final(self)@ == (ManagerModel {
                cache: cache_hit_test(old(self)@.cache, key@, now),
                ..old(self)@
            }),
    {
        match &mut self.cache {
            Some(cache) => cache.hit_test(key, now),
            None => None,
        }
    }

    /// Drops every record from the cache.
    pub fn flush_cache(&mut self)
        requires
            old(self).wf(),
        ensures
            final(self).wf(),
            final(self).store() == old(self).store(),
            final(self)@ == (ManagerModel {
                cache: cache_flushed(old(self)@.cache),
                ..old(self)@
            }),
    {
        match &mut self.cache {
            Some(cache) => {
                cache.flush();
            },
            None => {},
        }
    }

    /// The first step of a write of one record at `now`: stages the record
    /// while a transaction is open, and puts it into the cache otherwise.
    /// Returns whether the record is to be handed to the store.
    pub fn prepare_set(&mut self, record: &DbRecord, now: u64) -> (for_store: bool)
        requires
            old(self).wf(),
        ensures
            final(self).wf(),
            final(self).store() == old(self).store(),
            final(self)@ == old(self)@.after_set(record@, now, false),
            for_store == !old(self)@.transaction.active,
    {
        if self.is_transaction_active() {
            self.transaction.set(record);
            return false;
        }
        self.cache_record(record, now);
        true
    }

    /// The first step of a write of a batch at `now`: does nothing with an
    /// empty batch, stages the records while a transaction is open, and
    /// puts them into the cache otherwise. Returns whether the batch is to
    /// be handed to the store.
    pub fn prepare_batch_set(&mut self, records: &Vec<DbRecord>, now: u64) -> (for_store: bool)
        requires
            old(self).wf(),
        ensures
            final(self).wf(),
            final(self).store() == old(self).store(),
            final(self)@ == old(self)@.after_batch_set(record_views(records@), now, false),
            for_store == (records.len() > 0 && !old(self)@.transaction.active),
    {
        if records.len() == 0 {
            return false;
        }
        if self.is_transaction_active() {
            self.transaction.batch_set(records);
            return false;
        }
        self.cache_records(records, now);
        true
    }

    /// The first step of a commit at `now`: closes the transaction, lets
    /// the cache be cleaned again, and puts what was staged into the cache.
    /// Returns the batch to hand to the store as a transaction commit, the
    /// directory's metadata record last; an empty batch is not handed on.
    ///
    /// Fails, and changes nothing, where no transaction is open. Where
    /// records were staged and the directory's metadata record is not among
    /// them, it fails and the records are dropped.
    pub fn prepare_commit(&mut self, now: u64) -> (batch: Result<Vec<DbRecord>, StorageError>)
        requires
            old(self).wf(),
        ensures
            final(self).wf(),
            final(self).store() == old(self).store(),
            final(self)@ == if old(self)@.transaction.active {
                old(self)@.after_commit(now, false)
            } else {
                old(self)@
            },
            match batch {
                Ok(records) => old(self)@.transaction.active && committable(
                    old(self)@.transaction.staged,
                ) && record_views(records@) == commit_order(old(self)@.transaction.staged),
                Err(error) => error is Transaction && !(old(self)@.transaction.active
                    && committable(old(self)@.transaction.staged)),
            },
    {
        let records = match self.transaction.commit_transaction() {
            Ok(records) => records,
            Err(error) => {
                return Err(error);
            },
        };
        self.resume_cleaning(now);
        if records.len() == 0 {
            return Ok(records);
        }
        match &records[records.len() - 1] {
            DbRecord::Azks(_) => {},
            _ => {
                return Err(StorageError::no_commit_pointer());
            },
        }
        self.cache_records(&records, now);
        Ok(records)
    }

    /// Writes a record at `now`. While a transaction is open the record is
    /// staged, and neither the cache nor the store sees it. Otherwise it is
    /// put into the cache and then handed to the store.
    pub fn set(&mut self, record: DbRecord, now: u64) -> (result: Result<(), StorageError>)
        requires
            old(self).wf(),
        ensures
            final(self).wf(),
            final(self).store().modeled() == old(self).store().modeled(),
            final(self)@ == old(self)@.after_set(record@, now, result is Ok),
            old(self)@.transaction.active ==> result is Ok,
            old(self)@.transaction.active ==> final(self).store() == old(self).store(),
            old(self).store().modeled() && !old(self)@.transaction.active && result is Ok
                ==> final(self).store().contents() == stored_with(
                old(self).store().contents(),
                record@,
            ),
    {
        if !self.prepare_set(&record, now) {
            return Ok(());
        }
        let outcome = self.db.set(record);
        self.finish_write(outcome, METRIC_SET)
    }

    /// Writes a batch of records at `now`; an empty batch changes nothing.
    /// While a transaction is open the records are staged, and neither the
    /// cache nor the store sees them. Otherwise they are put into the cache
    /// and then handed to the store in one call.
    pub fn batch_set(&mut self, records: Vec<DbRecord>, now: u64) -> (result: Result<
        (),
        StorageError,
    >)
        requires
            old(self).wf(),
        ensures
            final(self).wf(),
            final(self).store().modeled() == old(self).store().modeled(),
            final(self)@ == old(self)@.after_batch_set(record_views(records@), now, result is Ok),
            records.len() == 0 || old(self)@.transaction.active ==> result is Ok,
            records.len() == 0 ==> final(self).store() == old(self).store(),
            old(self)@.transaction.active ==> final(self).store() == old(self).store(),
            old(self).store().modeled() && records.len() > 0 && !old(self)@.transaction.active
                && result is Ok ==> final(self).store().contents() == store_all(
                old(self).store().contents(),
                record_views(records@),
            ),
            old(self).store().modeled() && records.len() > 0 && !old(self)@.transaction.active
                && result is Ok ==> final(self).store().last_mode() == Some(DbSetState::General),
    {
        if !self.prepare_batch_set(&records, now) {
            return Ok(());
        }
        let outcome = self.db.batch_set(records, DbSetState::General);
        self.finish_write(outcome, METRIC_BATCH_SET)
    }

    /// Closes the transaction and writes what was staged: into the cache
    /// first, then into the store in one call, the directory's metadata
    /// record last. The cache is cleaned again from `now` on.
    ///
    /// Fails, and changes nothing, where no transaction is open. Where
    /// nothing was staged, the commit succeeds, and neither the records of
    /// the cache nor the store are touched. Where records were staged and the
    /// directory's metadata record is not among them, the commit fails and
    /// the records are dropped.
    pub fn commit_transaction(&mut self, now: u64) -> (result: Result<(), StorageError>)
        requires
            old(self).wf(),
        ensures
            final(self).wf(),
            final(self).store().modeled() == old(self).store().modeled(),
            final(self)@ == if old(self)@.transaction.active {
                old(self)@.after_commit(now, result is Ok)
            } else {
                old(self)@
            },
            !old(self)@.transaction.active ==> failed_transaction(result),
            old(self)@.transaction.active && old(self)@.transaction.staged.len() == 0
                ==> result is Ok,
            old(self)@.transaction.active && !committable(old(self)@.transaction.staged)
                ==> failed_transaction(result),
            !old(self)@.commit_reaches_store() ==> final(self).store() == old(self).store(),
            old(self).store().modeled() && old(self)@.commit_reaches_store() && result is Ok
                ==> final(self).store().contents() == store_all(
                old(self).store().contents(),
                commit_order(old(self)@.transaction.staged),
            ),
            old(self).store().modeled() && old(self)@.commit_reaches_store() && result is Ok
                ==> final(self).store().last_mode() == Some(DbSetState::TransactionCommit),
    {
        let records = match self.prepare_commit(now) {
            Ok(records) => records,
            Err(error) => {
                return Err(error);
            },
        };
        if records.len() == 0 {
            return Ok(());
        }
        let outcome = self.db.batch_set(records, DbSetState::TransactionCommit);
        self.finish_write(outcome, METRIC_BATCH_SET)
    }

    /// What is returned for a read past the transaction and the cache that
    /// the store has answered: the store's answer, with the read counted
    /// where it succeeded.
    pub fn finish_get_direct(&mut self, fetched: Result<DbRecord, StorageError>) -> (result:
        Result<DbRecord, StorageError>)
        ensures
            result == fetched,
            final(self).store() == old(self).store(),
            old(self).wf() ==> final(self).wf(),
            final(self)@ == if fetched is Ok {
                old(self)@.counted(METRIC_GET as int)
            } else {
                old(self)@
            },
    {
        if fetched.is_ok() {
            self.increment_metric(METRIC_GET);
        }
        fetched
    }

    /// Reads a record from the store, past the transaction and the cache.
    pub fn get_direct(&mut self, key: &RecordKey) -> (result: Result<DbRecord, StorageError>)
        requires
            old(self).wf(),
        ensures
            final(self).wf(),
            final(self).store() == old(self).store(),
            final(self)@ == if result is Ok {
                old(self)@.counted(METRIC_GET as int)
            } else {
                old(self)@
            },
            old(self).store().modeled() ==> is_stored_answer(
                old(self).store().contents(),
                key@,
                result,
            ),
    {
        let fetched = self.db.get(key);
        self.finish_get_direct(fetched)
    }

    /// What is returned for a read that the store has answered at `now`:
    /// the store's answer. A record that the store gave is put into the
    /// cache, and the read is counted.
    pub fn finish_get(&mut self, fetched: Result<DbRecord, StorageError>, now: u64) -> (result:
        Result<DbRecord, StorageError>)
        requires
            old(self).wf(),
        ensures
            final(self).wf(),
            final(self).store() == old(self).store(),
            result == fetched,
            final(self)@ == old(self)@.after_fetch(given_record(fetched), now),
    {
        match &fetched {
            Ok(record) => {
                self.cache_record(record, now);
                self.increment_metric(METRIC_GET);
            },
            Err(_) => {},
        }
        fetched
    }

    /// Looks for a record without asking the store: in the transaction
    /// buffer, while a transaction is open, and then in the cache.
    pub fn get_local(&mut self, key: &RecordKey, now: u64) -> (found: Option<DbRecord>)
        requires
            old(self).wf(),
        ensures
            final(self).wf(),
            final(self).store() == old(self).store(),
            record_view(found) == old(self)@.local_hit(key@, now),
            final(self)@ == old(self)@.after_local(key@, now),
    {
        if let Some(record) = self.transaction.get(key) {
            return Some(record);
        }
        self.cache_lookup(key, now)
    }

    /// Reads a record at `now`. A record that is staged in the open
    /// transaction is returned as staged, whatever the cache and the store
    /// hold; else a record that the cache serves is returned; else the store
    /// is asked, and what it gives is put into the cache.
    pub fn get(&mut self, key: &RecordKey, now: u64) -> (result: Result<DbRecord, StorageError>)
        requires
            old(self).wf(),
        ensures
            final(self).wf(),
            final(self).store() == old(self).store(),
            old(self)@.transaction.get(key@) matches Some(staged) ==> gave_record(result, staged)
                && final(self)@ == old(self)@,
            old(self)@.local_hit(key@, now) matches Some(held) ==> gave_record(result, held)
                && final(self)@ == old(self)@.after_local(key@, now),
            old(self)@.local_hit(key@, now) is None ==> final(self)@ == old(self)@.after_local(
                key@,
                now,
            ).after_fetch(given_record(result), now),
            old(self).store().modeled() && old(self)@.local_hit(key@, now) is None
                ==> is_stored_answer(old(self).store().contents(), key@, result),
    {
        if let Some(record) = self.get_local(key, now) {
            return Ok(record);
        }
        let fetched = self.db.get(key);
        self.finish_get(fetched, now)
    }

    /// The first step of a batch read at `now`: looks for each key in the
    /// transaction buffer and then in the cache. Returns the records found
    /// and the keys that are left to ask the store for, each once.
    pub fn resolve_locally(&mut self, keys: &Vec<RecordKey>, now: u64) -> (pass: (
        Vec<DbRecord>,
        Vec<RecordKey>,
    ))
        requires
            old(self).wf(),
        ensures
            final(self).wf(),
            final(self).store() == old(self).store(),
            record_views(pass.0@) == old(self)@.local_pass(key_views(keys@), now).found,
            key_views(pass.1@) == old(self)@.local_pass(key_views(keys@), now).residual,
            final(self)@ == old(self)@.local_pass(key_views(keys@), now).state,
    {
        let mut found: Vec<DbRecord> = Vec::new();
        let mut residual: Vec<RecordKey> = Vec::new();
        let ghost wanted = key_views(keys@);
        let ghost start = self@;
        let mut i: usize = 0;
        while i < keys.len()
            invariant
                i <= keys.len(),
                self.wf(),
                self.store() == old(self).store(),
                start == old(self)@,
                wanted == key_views(keys@),
                record_views(found@) == start.local_pass(wanted.take(i as int), now).found,
                key_views(residual@) == start.local_pass(wanted.take(i as int), now).residual,
                self@ == start.local_pass(wanted.take(i as int), now).state,
            decreases keys.len() - i,
        {
            proof {
                assert(wanted.take(i + 1).drop_last() =~= wanted.take(i as int));
            }
            match self.get_local(&keys[i], now) {
                Some(record) => {
                    found.push(record);
                },
                None => {
                    if !key_listed(&residual, &keys[i]) {
                        residual.push(keys[i].clone());
                    }
                },
            }
            i += 1;
        }
        assert(wanted.take(keys.len() as int) =~= wanted);
        (found, residual)
    }

    /// The last step of a batch read: what is returned once the store has
    /// answered for the residual keys. The records that the store gave come
    /// after those found before, and the read is counted.
    pub fn finish_batch_get(
        &mut self,
        found: Vec<DbRecord>,
        fetched: Result<Vec<DbRecord>, StorageError>,
    ) -> (result: Result<Vec<DbRecord>, StorageError>)
        ensures
            final(self).store() == old(self).store(),
            match fetched {
                Ok(given) => result matches Ok(records) && records@ == found@ + given@
                    && final(self)@ == old(self)@.counted(METRIC_BATCH_GET as int),
                Err(_) => result == fetched && final(self)@ == old(self)@,
            },
    {
        match fetched {
            Ok(mut given) => {
                let mut records = found;
                records.append(&mut given);
                self.increment_metric(METRIC_BATCH_GET);
                Ok(records)
            },
            Err(error) => Err(error),
        }
    }

    /// Reads a batch of records at `now`. Each key is looked for in the
    /// transaction buffer and then in the cache; the store is asked once,
    /// for the keys that are left, and not at all where none is left. The
    /// order of the records returned is that of the keys found first, then
    /// the store's. Of a modeled store, what it gave are the records of the
    /// keys left that it holds, all of them and no others.
    pub fn batch_get(&mut self, keys: &Vec<RecordKey>, now: u64) -> (result: Result<
        Vec<DbRecord>,
        StorageError,
    >)
        requires
            old(self).wf(),
        ensures
            final(self).wf(),
            final(self).store() == old(self).store(),
            ({
                let pass = old(self)@.local_pass(key_views(keys@), now);
                if pass.residual.len() == 0 {
                    &&& result matches Ok(records) && record_views(records@) == pass.found
                    &&& final(self)@ == pass.state
                } else {
                    &&& final(self)@ == if result is Ok {
                        pass.state.counted(METRIC_BATCH_GET as int)
                    } else {
                        pass.state
                    }
                    &&& result matches Ok(records) ==> {
                        &&& records.len() >= pass.found.len()
                        &&& record_views(records@).take(pass.found.len() as int) == pass.found
                        &&& old(self).store().modeled() ==> is_batch_answer(
                            old(self).store().contents(),
                            pass.residual,
                            record_views(records@).skip(pass.found.len() as int),
                        )
                    }
                }
            }),
    {
        let (found, residual) = self.resolve_locally(keys, now);
        if residual.len() == 0 {
            return Ok(found);
        }
        let fetched = self.db.batch_get(&residual);
        let ghost held = record_views(found@);
        let ghost given = if fetched is Ok {
            record_views(fetched->Ok_0@)
        } else {
            Seq::empty()
        };
        let result = self.finish_batch_get(found, fetched);
        proof {
            if result is Ok {
                let all = record_views(result->Ok_0@);
                assert(all.take(held.len() as int) =~= held);
                assert(all.skip(held.len() as int) =~= given);
            }
        }
        result
    }

    /// What tombstoning makes of the store, given the tombstones `marked`.
    /// The store is as it was where there is no tombstone or a transaction
    /// is open. Otherwise, where the write succeeded, a modeled store holds
    /// the tombstones too, and took them as a general batch.
    pub open spec fn tombstones_stored(
        before: Db,
        after: Db,
        active: bool,
        marked: Seq<RecordView>,
        written: bool,
    ) -> bool {
        &&& marked.len() == 0 || active ==> after == before
        &&& before.modeled() && !active && written ==> after.contents() == store_all(
            before.contents(),
            marked,
        )
        &&& before.modeled() && !active && written && marked.len() > 0 ==> after.last_mode()
            == Some(DbSetState::General)
    }

    /// Writes the tombstones of the value states among `records`, at `now`,
    /// as a batch write does, and counts the tombstoning. Where there is no
    /// value state among the records, nothing is written or counted.
    pub fn write_tombstones(&mut self, records: &Vec<DbRecord>, now: u64) -> (result: Result<
        (),
        StorageError,
    >)
        requires
            old(self).wf(),
        ensures
            final(self).wf(),
            final(self).store().modeled() == old(self).store().modeled(),
            final(self)@ == old(self)@.after_tombstones(
                tombstones(record_views(records@)),
                now,
                result is Ok,
            ),
            tombstones(record_views(records@)).len() == 0 || old(self)@.transaction.active
                ==> result is Ok,
            Self::tombstones_stored(
                old(self).store(),
                final(self).store(),
                old(self)@.transaction.active,
                tombstones(record_views(records@)),
                result is Ok,
            ),
    {
        let marked = tombstones_of(records);
        if marked.len() == 0 {
            return Ok(());
        }
        match self.batch_set(marked, now) {
            Ok(_) => {},
            Err(error) => {
                return Err(error);
            },
        }
        self.increment_metric(METRIC_TOMBSTONE);
        Ok(())
    }

    /// `after` and `result` are what tombstoning at `now` leaves and returns
    /// where the batch read found `found` before the store and the store
    /// gave `read`.
    pub open spec fn tombstoned(
        before: Self,
        state: ManagerModel,
        found: Seq<RecordView>,
        read: Seq<RecordView>,
        now: u64,
        after: Self,
        result: Result<(), StorageError>,
    ) -> bool {
        &&& after@ == state.after_tombstones(tombstones(found + read), now, result is Ok)
        &&& tombstones(found + read).len() == 0 || before@.transaction.active ==> result is Ok
        &&& Self::tombstones_stored(
            before.store(),
            after.store(),
            before@.transaction.active,
            tombstones(found + read),
            result is Ok,
        )
    }

    /// Replaces the values of the value states under `keys` by the
    /// tombstone, at `now`: reads them as a batch read does, and writes the
    /// tombstones as a batch write does, as one general batch. While a
    /// transaction is open the tombstones are staged, and the store is not
    /// written. Where the transaction buffer and the cache hold all the
    /// keys, the store is not read either.
    pub fn tombstone_value_states(&mut self, keys: &Vec<ValueStateKey>, now: u64) -> (result:
        Result<(), StorageError>)
        requires
            old(self).wf(),
        ensures
            final(self).wf(),
            final(self).store().modeled() == old(self).store().modeled(),
            old(self)@.transaction.active ==> final(self).store() == old(self).store(),
            keys.len() == 0 ==> result is Ok && final(self)@ == old(self)@ && final(self).store()
                == old(self).store(),
            ({
                let pass = old(self)@.local_pass(state_key_views(keys@), now);
                if pass.residual.len() == 0 {
                    Self::tombstoned(
                        *old(self),
                        pass.state,
                        pass.found,
                        Seq::empty(),
                        now,
                        *final(self),
                        result,
                    )
                } else {
                    ||| {
                        &&& result is Err
                        &&& final(self)@ == pass.state
                        &&& final(self).store() == old(self).store()
                    }
                    ||| exists|read: Seq<RecordView>|
                        {
                            &&& #[trigger] Self::tombstoned(
                                *old(self),
                                pass.state.counted(METRIC_BATCH_GET as int),
                                pass.found,
                                read,
                                now,
                                *final(self),
                                result,
                            )
                            &&& old(self).store().modeled() ==> is_batch_answer(
                                old(self).store().contents(),
                                pass.residual,
                                read,
                            )
                        }
                }
            }),
    {
        if keys.len() == 0 {
            assert(tombstones(Seq::<RecordView>::empty() + Seq::<RecordView>::empty()).len() == 0);
            return Ok(());
        }
        let wanted = record_keys(keys);
        assert(key_views(wanted@) =~= state_key_views(keys@));
        proof {
            law_residual_keys(old(self)@, key_views(wanted@), now);
        }
        let ghost pass = old(self)@.local_pass(key_views(wanted@), now);
        let records = match self.batch_get(&wanted, now) {
            Ok(records) => records,
            Err(error) => {
                return Err(error);
            },
        };
        let ghost views = record_views(records@);
        let ghost read = views.skip(pass.found.len() as int);
        let result = self.write_tombstones(&records, now);
        proof {
            assert(views =~= pass.found + read);
            if pass.residual.len() == 0 {
                assert(read =~= Seq::empty());
            } else {
                assert(Self::tombstoned(
                    *old(self),
                    pass.state.counted(METRIC_BATCH_GET as int),
                    pass.found,
                    read,
                    now,
                    *self,
                    result,
                ));
            }
        }
        result
    }

    /// Whether a staged state takes the place of a stored state with the
    /// epoch `state_epoch`, under `flag`: returns the staged state where it
    /// does, and nothing where the stored state stays.
    pub fn compare_db_and_transaction_records(
        state_epoch: u64,
        transaction_value: ValueState,
        flag: ValueStateRetrievalFlag,
    ) -> (kept: Option<ValueState>)
        ensures
            kept == if transaction_overrides(flag, transaction_value.epoch, state_epoch) {
                Some(transaction_value)
            } else {
                None
            },
    {
        match flag {
            ValueStateRetrievalFlag::SpecificVersion(_) => {
                return Some(transaction_value);
            },
            ValueStateRetrievalFlag::SpecificEpoch(_) => {
                return Some(transaction_value);
            },
            ValueStateRetrievalFlag::LeqEpoch(_) => {
                if transaction_value.epoch >= state_epoch {
                    return Some(transaction_value);
                }
            },
            ValueStateRetrievalFlag::MaxEpoch => {
                if transaction_value.epoch >= state_epoch {
                    return Some(transaction_value);
                }
            },
            ValueStateRetrievalFlag::MinEpoch => {
                if transaction_value.epoch <= state_epoch {
                    return Some(transaction_value);
                }
            },
        }
        None
    }

    /// What is returned for a user-state query that the store has answered
    /// at `now`. A failure of the store other than `NotFound` is handed on.
    /// Otherwise the query is counted and the transaction's answer is merged
    /// into the store's; where the store's answer is the merged one, it is
    /// put into the cache; where there is no answer, the query fails with
    /// `NotFound`.
    pub fn resolve_user_state(
        &mut self,
        fetched: Result<ValueState, StorageError>,
        username: &AkdLabel,
        flag: ValueStateRetrievalFlag,
        now: u64,
    ) -> (result: Result<ValueState, StorageError>)
        requires
            old(self).wf(),
        ensures
            final(self).wf(),
            final(self).store() == old(self).store(),
            store_failed(fetched) ==> result == fetched && final(self)@ == old(self)@,
            !store_failed(fetched) ==> old(self)@.answers_user_state(
                stored_state(fetched),
                username@,
                flag,
                now,
                final(self)@,
                result,
            ),
    {
        let stored = match fetched {
            Ok(state) => Some(state),
            Err(StorageError::NotFound(_)) => None,
            Err(other) => {
                return Err(other);
            },
        };
        self.increment_metric(METRIC_GET_USER_STATE);
        if let Some(staged) = self.transaction.get_user_state(username, flag) {
            match &stored {
                Some(held) => {
                    if let Some(record) = Self::compare_db_and_transaction_records(
                        held.epoch,
                        staged,
                        flag,
                    ) {
                        return Ok(record);
                    }
                },
                None => {
                    return Ok(staged);
                },
            }
        }
        match stored {
            Some(state) => {
                let record = DbRecord::ValueState(state.clone());
                self.cache_record(&record, now);
                Ok(state)
            },
            None => Err(StorageError::no_value_state()),
        }
    }

    /// Answers a user-state query at `now`: asks the store, and merges the
    /// answer of the open transaction into the store's.
    pub fn get_user_state(
        &mut self,
        username: &AkdLabel,
        flag: ValueStateRetrievalFlag,
        now: u64,
    ) -> (result: Result<ValueState, StorageError>)
        requires
            old(self).wf(),
        ensures
            final(self).wf(),
            final(self).store() == old(self).store(),
            store_failed(result) ==> final(self)@ == old(self)@,
            !store_failed(result) ==> exists|stored: Option<ValueStateView>|
                old(self)@.answers_user_state(stored, username@, flag, now, final(self)@, result),
            old(self).store().modeled() && !store_failed(result) ==> old(self)@.answers_user_state(
                chosen_state(states_of(old(self).store().contents()), username@, flag),
                username@,
                flag,
                now,
                final(self)@,
                result,
            ),
    {
        let fetched = self.db.get_user_state(username, flag);
        let result = self.resolve_user_state(fetched, username, flag, now);
        result
    }

    /// What is returned for a user-data query that the store has answered.
    /// A failure of the store other than `NotFound` is handed on. Otherwise
    /// the query is counted. While a transaction is open, the staged states
    /// of the user are merged into the store's by epoch, and the query
    /// succeeds even where there is no state. While none is open, the
    /// store's states are returned, and the query fails with `NotFound`
    /// where the store had none.
    pub fn resolve_user_data(
        &mut self,
        fetched: Result<KeyData, StorageError>,
        username: &AkdLabel,
    ) -> (result: Result<KeyData, StorageError>)
        requires
            old(self).wf(),
        ensures
            final(self).wf(),
            final(self).store() == old(self).store(),
            store_failed(fetched) ==> result == fetched && final(self)@ == old(self)@,
            !store_failed(fetched) ==> final(self)@ == old(self)@.counted(
                METRIC_GET_USER_DATA as int,
            ),
            !store_failed(fetched) && old(self)@.transaction.active ==> (result matches Ok(data)
                && data@ == merged_user_data(
                stored_data(fetched),
                old(self)@.transaction.user_data(username@),
            )),
            !store_failed(fetched) && !old(self)@.transaction.active ==> (match fetched {
                Ok(stored) => result matches Ok(data) && data@ == stored@,
                Err(_) => failed_not_found(result),
            }),
    {
        let stored = match fetched {
            Ok(data) => Some(data),
            Err(StorageError::NotFound(_)) => None,
            Err(other) => {
                return Err(other);
            },
        };
        self.increment_metric(METRIC_GET_USER_DATA);
        if self.is_transaction_active() {
            let staged = self.transaction.get_user_data(username);
            let merged = match &stored {
                Some(data) => merge_states(&data.states, &staged),
                None => {
                    let none: Vec<ValueState> = Vec::new();
                    merge_states(&none, &staged)
                },
            };
            return Ok(KeyData { states: merged });
        }
        match stored {
            Some(data) => Ok(data),
            None => Err(StorageError::no_user_data()),
        }
    }

    /// Answers a user-data query: asks the store for all the states of the
    /// user. A failure of the store other than `NotFound` is handed on, and
    /// nothing changes; otherwise the query is counted.
    ///
    /// While a transaction is open, what is returned are the states that
    /// the store gave, or none where it said `NotFound`, with the staged
    /// states of the user merged into them by epoch. While none is open, the
    /// store's answer is returned. Of a modeled store, the states that it
    /// gave are the stored states of the user, all of them and no others.
    pub fn get_user_data(&mut self, username: &AkdLabel) -> (result: Result<KeyData, StorageError>)
        requires
            old(self).wf(),
        ensures
            final(self).wf(),
            final(self).store() == old(self).store(),
            store_failed(result) ==> final(self)@ == old(self)@,
            !store_failed(result) ==> final(self)@ == old(self)@.counted(
                METRIC_GET_USER_DATA as int,
            ),
            !store_failed(result) && old(self)@.transaction.active ==> exists|
                stored: Seq<ValueStateView>,
            |
                {
                    &&& result matches Ok(data) && data@ == #[trigger] old(self)@.user_data(
                        stored,
                        username@,
                    )
                    &&& old(self).store().modeled() ==> are_states_of(
                        old(self).store().contents(),
                        username@,
                        stored,
                    )
                },
            !store_failed(result) && !old(self)@.transaction.active ==> result is Ok
                || failed_not_found(result),
            old(self).store().modeled() && !old(self)@.transaction.active ==> is_user_data(
                old(self).store().contents(),
                username@,
                result,
            ),
    {
        let fetched = self.db.get_user_data(username);
        let ghost given = stored_data(fetched);
        let result = self.resolve_user_data(fetched, username);
        proof {
            if !store_failed(result) && old(self)@.transaction.active {
                assert(result->Ok_0@ == old(self)@.user_data(given, username@));
            }
        }
        result
    }

    /// What is returned for a bulk version lookup that the store has
    /// answered. A failure of the store is handed on. Otherwise the lookup
    /// is counted, and the answers of the open transaction are merged into
    /// the store's rows.
    pub fn resolve_user_state_versions(
        &mut self,
        fetched: Result<Vec<UserVersion>, StorageError>,
        usernames: &Vec<AkdLabel>,
        flag: ValueStateRetrievalFlag,
    ) -> (result: Result<Vec<UserVersion>, StorageError>)
        requires
            old(self).wf(),
        ensures
            final(self).wf(),
            final(self).store() == old(self).store(),
            match fetched {
                Ok(rows) => {
                    let expected = old(self)@.user_state_versions(
                        version_views(rows@),
                        label_views(usernames@),
                        flag,
                    );
                    &&& final(self)@ == old(self)@.counted(METRIC_GET_USER_STATE_VERSIONS as int)
                    &&& result matches Ok(merged) && version_views(merged@) == expected
                },
                Err(_) => result == fetched && final(self)@ == old(self)@,
            },
    {
        let rows = match fetched {
            Ok(rows) => rows,
            Err(error) => {
                return Err(error);
            },
        };
        self.increment_metric(METRIC_GET_USER_STATE_VERSIONS);
        let staged = self.transaction.get_users_states(usernames, flag);
        Ok(merge_versions(rows, &staged, flag))
    }

    /// Looks up, for each of the users, the epoch and the value of the state
    /// that the flag selects: asks the store, and merges the answers of the
    /// open transaction into the store's rows. The lookup succeeds where the
    /// store's does, and is then counted; a failure of the store is handed
    /// on, and nothing changes.
    ///
    /// What is returned are rows that the store gave with the transaction's
    /// answers merged into them. Of a modeled store each of those rows is
    /// for one of the users and gives the epoch and the value of the stored
    /// answer for that user; while no transaction is open, they are returned
    /// as they are.
    pub fn get_user_state_versions(
        &mut self,
        usernames: &Vec<AkdLabel>,
        flag: ValueStateRetrievalFlag,
    ) -> (result: Result<Vec<UserVersion>, StorageError>)
        requires
            old(self).wf(),
        ensures
            final(self).wf(),
            final(self).store() == old(self).store(),
            final(self)@ == if result is Ok {
                old(self)@.counted(METRIC_GET_USER_STATE_VERSIONS as int)
            } else {
                old(self)@
            },
            result matches Ok(merged) ==> exists|rows: Seq<UserVersionView>|
                {
                    &&& version_views(merged@) == #[trigger] old(self)@.user_state_versions(
                        rows,
                        label_views(usernames@),
                        flag,
                    )
                    &&& old(self).store().modeled() ==> rows_are_answers(
                        old(self).store().contents(),
                        label_views(usernames@),
                        flag,
                        rows,
                    )
                },
            !old(self)@.transaction.active && old(self).store().modeled() ==> (result matches Ok(
                merged,
            ) ==> rows_are_answers(
                old(self).store().contents(),
                label_views(usernames@),
                flag,
                version_views(merged@),
            )),
    {
        let fetched = self.db.get_user_state_versions(usernames, flag);
        let ghost given = if fetched is Ok {
            version_views(fetched->Ok_0@)
        } else {
            Seq::empty()
        };
        proof {
            if fetched is Ok && self.db.modeled() {
                let rows = fetched->Ok_0;
                assert forall|i: int| 0 <= i < given.len() implies label_views(
                    usernames@,
                ).contains((#[trigger] given[i]).username) && row_is_answer(
                    self.db.contents(),
                    flag,
                    given[i],
                ) by {
                    assert(given[i] == rows[i]@);
                }
            }
        }
        let result = self.resolve_user_state_versions(fetched, usernames, flag);
        proof {
            if result is Ok {
                assert(version_views(result->Ok_0@) == old(self)@.user_state_versions(
                    given,
                    label_views(usernames@),
                    flag,
                ));
                if !old(self)@.transaction.active {
                    assert(put_versions(given, Seq::empty(), flag) == given);
                }
            }
        }
        result
    }
}

} // verus!
