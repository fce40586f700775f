//! What a mediator holds, and what each of its operations makes of it.
//!
//! The contracts of the mediator's operations are written over these
//! functions: each says what an operation leaves, given what the mediator
//! held, the time, and what the store answered.
use crate::cache::CacheModel;
use crate::error::{StorageError, failed_not_found};
use crate::merge::{answer_is_stored, merged_state, merged_user_data, put_versions};
use crate::report::{COUNTS_HEAD, TIMING_HEAD, entry};
use crate::transaction::{TransactionModel, commit_order, committable};
use crate::types::{
    KeyData, KeyView, RecordView, UserVersionView, ValueState, ValueStateKey,
    ValueStateRetrievalFlag, ValueStateView, gave_state,
};
use vstd::prelude::*;

verus! {

/// How many records were read from the store one at a time.
pub const METRIC_GET: usize = 0;

/// How many batches of records were read from the store.
pub const METRIC_BATCH_GET: usize = 1;

/// How many records were written to the store one at a time.
pub const METRIC_SET: usize = 2;

/// How many batches of records were written to the store.
pub const METRIC_BATCH_SET: usize = 3;

/// The milliseconds spent reading from the store.
pub const METRIC_READ_TIME: usize = 4;

/// The milliseconds spent writing to the store.
pub const METRIC_WRITE_TIME: usize = 5;

/// How many times value states were replaced by tombstones.
pub const METRIC_TOMBSTONE: usize = 6;

/// How many user-state queries the store answered.
pub const METRIC_GET_USER_STATE: usize = 7;

/// How many user-data queries the store answered.
pub const METRIC_GET_USER_DATA: usize = 8;

/// How many bulk version lookups the store answered.
pub const METRIC_GET_USER_STATE_VERSIONS: usize = 9;

/// The number of counters.
pub const NUM_METRICS: usize = 10;

/// What a mediator holds beside its store.
pub struct ManagerModel {
    /// The cache, where the mediator has one.
    pub cache: Option<CacheModel>,
    pub transaction: TransactionModel,
    /// The counters.
    pub metrics: Seq<u64>,
    /// The counters are kept.
    pub counting: bool,
}

/// What a batch read has done before it asks the store.
pub struct LocalPass {
    /// The records found in the transaction buffer or in the cache, one for
    /// each key that was found, in the order of the keys.
    pub found: Seq<RecordView>,
    /// The keys to ask the store for.
    pub residual: Seq<KeyView>,
    /// The mediator after the lookups.
    pub state: ManagerModel,
}

/// The tombstones of the value states among the records, in the records'
/// order: each keeps its user, epoch, version and label.
pub open spec fn tombstones(records: Seq<RecordView>) -> Seq<RecordView>
    decreases records.len(),
{
    if records.len() == 0 {
        Seq::empty()
    } else {
        let rest = tombstones(records.drop_last());
        match records.last() {
            RecordView::ValueState(state) => rest.push(RecordView::ValueState(state.tombstoned())),
            _ => rest,
        }
    }
}

/// The views of the keys of value states, in the list's order.
pub open spec fn state_key_views(keys: Seq<ValueStateKey>) -> Seq<KeyView> {
    Seq::new(keys.len(), |i: int| keys[i]@)
}

/// The store's answer to a query for something that may be absent: what it
/// gave, or nothing where it said `NotFound`.
pub open spec fn stored_state(fetched: Result<ValueState, StorageError>) -> Option<
    ValueStateView,
> {
    match fetched {
        Ok(state) => Some(state@),
        Err(_) => None,
    }
}

/// The store's states of a user: what it gave, or none where it said
/// `NotFound`.
pub open spec fn stored_data(fetched: Result<KeyData, StorageError>) -> Seq<ValueStateView> {
    match fetched {
        Ok(data) => data@,
        Err(_) => Seq::empty(),
    }
}

/// The cache after `record` was put at `now`.
pub open spec fn cache_put(cache: Option<CacheModel>, record: RecordView, now: u64) -> Option<
    CacheModel,
> {
    match cache {
        Some(cache) => Some(cache.put(record, now)),
        None => None,
    }
}

/// The cache after the records of `batch` were put at `now`.
pub open spec fn cache_batch_put(
    cache: Option<CacheModel>,
    batch: Seq<RecordView>,
    now: u64,
) -> Option<CacheModel> {
    match cache {
        Some(cache) => Some(cache.batch_put(batch, now)),
        None => None,
    }
}

/// The cache after a lookup of `key` at `now`.
pub open spec fn cache_hit_test(cache: Option<CacheModel>, key: KeyView, now: u64) -> Option<
    CacheModel,
> {
    match cache {
        Some(cache) => Some(cache.hit_test(key, now)),
        None => None,
    }
}

/// What a lookup of `key` in the cache at `now` returns.
pub open spec fn cache_hit(cache: Option<CacheModel>, key: KeyView, now: u64) -> Option<
    RecordView,
> {
    match cache {
        Some(cache) => cache.hit_result(key, now),
        None => None,
    }
}

/// The record that the cache serves under `key` at `now` as it stands,
/// without cleaning first.
pub open spec fn cache_peek(cache: Option<CacheModel>, key: KeyView, now: u64) -> Option<
    RecordView,
> {
    match cache {
        Some(cache) => cache.peek(key, now),
        None => None,
    }
}

/// The cache with cleaning disabled.
pub open spec fn cache_paused(cache: Option<CacheModel>) -> Option<CacheModel> {
    match cache {
        Some(cache) => Some(cache.disable_clean()),
        None => None,
    }
}

/// The cache with cleaning enabled again at `now`.
pub open spec fn cache_resumed(cache: Option<CacheModel>, now: u64) -> Option<CacheModel> {
    match cache {
        Some(cache) => Some(cache.enable_clean(now)),
        None => None,
    }
}

/// The cache with no record.
pub open spec fn cache_flushed(cache: Option<CacheModel>) -> Option<CacheModel> {
    match cache {
        Some(cache) => Some(cache.flush()),
        None => None,
    }
}

impl ManagerModel {
    /// The parts are well formed, and there are `NUM_METRICS` counters.
    pub open spec fn wf(self) -> bool {
        &&& self.metrics.len() == NUM_METRICS
        &&& self.transaction.wf()
        &&& self.cache matches Some(cache) ==> cache.wf()
    }

    /// The mediator after `amount` was added to a counter, if the counters
    /// are kept.
    pub open spec fn added(self, metric: int, amount: u64) -> ManagerModel {
        if self.counting {
            ManagerModel {
                metrics: self.metrics.update(metric, self.metrics[metric].wrapping_add(amount)),
                ..self
            }
        } else {
            self
        }
    }

    /// The mediator after a counter went up by one, if the counters are kept.
    pub open spec fn counted(self, metric: int) -> ManagerModel {
        self.added(metric, 1)
    }

    /// What a read of `key` at `now` finds without asking the store: the
    /// staged record, or else the cached one.
    pub open spec fn local_hit(self, key: KeyView, now: u64) -> Option<RecordView> {
        match self.transaction.get(key) {
            Some(record) => Some(record),
            None => cache_hit(self.cache, key, now),
        }
    }

    /// The mediator after a read of `key` at `now` looked for the record
    /// without asking the store.
    pub open spec fn after_local(self, key: KeyView, now: u64) -> ManagerModel {
        if self.transaction.get(key) is Some {
            self
        } else {
            ManagerModel { cache: cache_hit_test(self.cache, key, now), ..self }
        }
    }

    /// The mediator after the store answered a read of one record at `now`.
    pub open spec fn after_fetch(self, fetched: Option<RecordView>, now: u64) -> ManagerModel {
        match fetched {
            Some(record) => ManagerModel {
                cache: cache_put(self.cache, record, now),
                ..self
            }.counted(METRIC_GET as int),
            None => self,
        }
    }

    /// What a batch read of `keys` at `now` does before it asks the store.
    /// Each key is looked for in its turn, in the transaction buffer and
    /// then in the cache; the keys that were not found make up the residual,
    /// each once.
    pub open spec fn local_pass(self, keys: Seq<KeyView>, now: u64) -> LocalPass
        decreases keys.len(),
    {
        if keys.len() == 0 {
            LocalPass { found: Seq::empty(), residual: Seq::empty(), state: self }
        } else {
            let before = self.local_pass(keys.drop_last(), now);
            let key = keys.last();
            match before.state.local_hit(key, now) {
                Some(record) => LocalPass {
                    found: before.found.push(record),
                    residual: before.residual,
                    state: before.state.after_local(key, now),
                },
                None => LocalPass {
                    found: before.found,
                    residual: if before.residual.contains(key) {
                        before.residual
                    } else {
                        before.residual.push(key)
                    },
                    state: before.state.after_local(key, now),
                },
            }
        }
    }

    /// The transaction's answer to a user-state query merged into the
    /// store's answer `stored`.
    pub open spec fn user_state(
        self,
        stored: Option<ValueStateView>,
        user: Seq<u8>,
        flag: ValueStateRetrievalFlag,
    ) -> Option<ValueStateView> {
        merged_state(stored, self.transaction.user_state(user, flag), flag)
    }

    /// All the states of `user` that a user-data query returns while a
    /// transaction is open, where the store gave `stored`: the staged states
    /// of the user merged into them by epoch.
    pub open spec fn user_data(self, stored: Seq<ValueStateView>, user: Seq<u8>) -> Seq<
        ValueStateView,
    > {
        merged_user_data(stored, self.transaction.user_data(user))
    }

    /// The rows that a bulk version lookup for `users` returns where the
    /// store gave `rows`: the answers of the open transaction merged into
    /// them, one user after the other.
    pub open spec fn user_state_versions(
        self,
        rows: Seq<UserVersionView>,
        users: Seq<Seq<u8>>,
        flag: ValueStateRetrievalFlag,
    ) -> Seq<UserVersionView> {
        put_versions(rows, self.transaction.users_states(users, flag), flag)
    }

    /// The mediator after the store gave the answer `stored` to a
    /// user-state query at `now`: the query is counted, and the store's
    /// answer is put into the cache where it is the merged answer.
    pub open spec fn after_user_state(
        self,
        stored: Option<ValueStateView>,
        user: Seq<u8>,
        flag: ValueStateRetrievalFlag,
        now: u64,
    ) -> ManagerModel {
        let counted = self.counted(METRIC_GET_USER_STATE as int);
        match stored {
            Some(state) => if answer_is_stored(
                stored,
                self.transaction.user_state(user, flag),
                flag,
            ) {
                ManagerModel {
                    cache: cache_put(self.cache, RecordView::ValueState(state), now),
                    ..counted
                }
            } else {
                counted
            },
            None => counted,
        }
    }

    /// `after` and `result` are what a user-state query at `now` leaves and
    /// returns where the store gave the answer `stored`.
    pub open spec fn answers_user_state(
        self,
        stored: Option<ValueStateView>,
        user: Seq<u8>,
        flag: ValueStateRetrievalFlag,
        now: u64,
        after: ManagerModel,
        result: Result<ValueState, StorageError>,
    ) -> bool {
        &&& after == self.after_user_state(stored, user, flag, now)
        &&& match self.user_state(stored, user, flag) {
            Some(answer) => gave_state(result, answer),
            None => failed_not_found(result),
        }
    }

    /// The text of the report on the store: what the counters stand at.
    pub open spec fn report(self) -> Seq<char> {
        Seq::<char>::empty() + entry(COUNTS_HEAD@, self.metrics[METRIC_SET as int], ", \n"@)
            + entry("    BATCH SET "@, self.metrics[METRIC_BATCH_SET as int], ", \n"@) + entry(
            "    GET "@,
            self.metrics[METRIC_GET as int],
            ", \n"@,
        ) + entry("    BATCH GET "@, self.metrics[METRIC_BATCH_GET as int], "\n"@) + entry(
            "    TOMBSTONE "@,
            self.metrics[METRIC_TOMBSTONE as int],
            "\n"@,
        ) + entry("    GET USER STATE "@, self.metrics[METRIC_GET_USER_STATE as int], "\n"@)
            + entry("    GET USER DATA "@, self.metrics[METRIC_GET_USER_DATA as int], "\n"@)
            + entry(
            "    GET USER STATE VERSIONS "@,
            self.metrics[METRIC_GET_USER_STATE_VERSIONS as int],
            "\n"@,
        ) + entry(TIMING_HEAD@, self.metrics[METRIC_READ_TIME as int], " ms\n"@) + entry(
            "    TIME WRITE "@,
            self.metrics[METRIC_WRITE_TIME as int],
            " ms"@,
        )
    }

    /// The reports that the mediator gives: on the cache where it has one,
    /// on the transaction buffer, and on the store.
    pub open spec fn reports(self) -> Seq<Seq<char>> {
        match self.cache {
            Some(cache) => seq![cache.report(), self.transaction.report(), self.report()],
            None => seq![self.transaction.report(), self.report()],
        }
    }

    /// The mediator after a transaction was begun: where none was open, one
    /// is, and the cleaning of the cache is disabled.
    pub open spec fn after_begin(self) -> ManagerModel {
        if self.transaction.active {
            self
        } else {
            ManagerModel {
                transaction: TransactionModel { active: true, ..self.transaction },
                cache: cache_paused(self.cache),
                ..self
            }
        }
    }

    /// The mediator after the open transaction was closed at `now`: nothing
    /// is staged, and the cache is cleaned again.
    pub open spec fn after_close(self, now: u64) -> ManagerModel {
        ManagerModel {
            transaction: TransactionModel::closed(),
            cache: cache_resumed(self.cache, now),
            ..self
        }
    }

    /// The mediator after `record` was written at `now`: staged while a
    /// transaction is open; put into the cache otherwise, and counted where
    /// the store took it.
    pub open spec fn after_set(self, record: RecordView, now: u64, written: bool) -> ManagerModel {
        if self.transaction.active {
            ManagerModel { transaction: self.transaction.set(record), ..self }
        } else if written {
            ManagerModel { cache: cache_put(self.cache, record, now), ..self }.counted(
                METRIC_SET as int,
            )
        } else {
            ManagerModel { cache: cache_put(self.cache, record, now), ..self }
        }
    }

    /// The mediator after the records of `batch` were written at `now`: as
    /// it was, where the batch is empty; else staged while a transaction is
    /// open; put into the cache otherwise, and counted where the store took
    /// them.
    pub open spec fn after_batch_set(
        self,
        batch: Seq<RecordView>,
        now: u64,
        written: bool,
    ) -> ManagerModel {
        if batch.len() == 0 {
            self
        } else if self.transaction.active {
            ManagerModel { transaction: self.transaction.batch_set(batch), ..self }
        } else if written {
            ManagerModel { cache: cache_batch_put(self.cache, batch, now), ..self }.counted(
                METRIC_BATCH_SET as int,
            )
        } else {
            ManagerModel { cache: cache_batch_put(self.cache, batch, now), ..self }
        }
    }

    /// A commit hands records to the store: a transaction is open, and
    /// records are staged that can be committed.
    pub open spec fn commit_reaches_store(self) -> bool {
        self.transaction.active && self.transaction.staged.len() > 0 && committable(
            self.transaction.staged,
        )
    }

    /// The mediator after the open transaction was committed at `now`. The
    /// transaction is closed. Where records were staged and can be
    /// committed, they are put into the cache in the order of the commit,
    /// and counted as a batch where the store took them.
    pub open spec fn after_commit(self, now: u64, written: bool) -> ManagerModel {
        let closed = self.after_close(now);
        let staged = self.transaction.staged;
        if staged.len() == 0 || !committable(staged) {
            closed
        } else if written {
            ManagerModel {
                cache: cache_batch_put(closed.cache, commit_order(staged), now),
                ..closed
            }.counted(METRIC_BATCH_SET as int)
        } else {
            ManagerModel { cache: cache_batch_put(closed.cache, commit_order(staged), now), ..closed }
        }
    }

    /// The mediator after the tombstones `marked` were written at `now`, as
    /// a batch is written; where there is a tombstone and the write
    /// succeeded, the tombstoning is counted.
    pub open spec fn after_tombstones(
        self,
        marked: Seq<RecordView>,
        now: u64,
        written: bool,
    ) -> ManagerModel {
        if marked.len() > 0 && (self.transaction.active || written) {
            self.after_batch_set(marked, now, written).counted(METRIC_TOMBSTONE as int)
        } else {
            self.after_batch_set(marked, now, written)
        }
    }

    /// A mediator as it is made.
    pub open spec fn fresh(cache: Option<CacheModel>) -> ManagerModel {
        ManagerModel {
            cache,
            transaction: TransactionModel::closed(),
            metrics: Seq::new(NUM_METRICS as nat, |i: int| 0u64),
            counting: false,
        }
    }
}

} // verus!
