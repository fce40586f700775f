//! The timed cache: records held in memory for a limited time and within a
//! soft limit on their estimated size.
//!
//! Time is a number of milliseconds on a clock that the caller reads. A
//! cleaner drops the records whose time is up and then, oldest first, as
//! many as bring the estimated size within the limit. It runs at the start
//! of an operation, no more often than the cache was made for, and not at
//! all while cleaning is disabled.
use crate::report::{entry, push_entry};
use crate::table::{
    find_record, has_key, lemma_position, lookup, position, unique_keys, upsert, upsert_record,
};
use crate::types::{DbRecord, KeyView, RecordKey, RecordView, record_view, record_views};
use vstd::prelude::*;

verus! {

/// How long a record stays in a cache for which no time was given.
pub const DEFAULT_ITEM_LIFETIME_MS: u64 = 30000;

/// How long a cache waits between two cleanings where no time was given.
pub const DEFAULT_CLEAN_FREQUENCY_MS: u64 = 15000;

/// The records of a cache, each with the time at which it was admitted. A
/// record admitted while cleaning was disabled has no time until cleaning is
/// enabled again.
pub struct CacheEntries {
    pub records: Seq<RecordView>,
    pub born: Seq<Option<u64>>,
}

/// What a cache holds, and how it was made.
pub struct CacheModel {
    pub entries: CacheEntries,
    /// Cleaning is disabled.
    pub paused: bool,
    /// When the cleaner last ran.
    pub last_clean: u64,
    pub item_lifetime: u64,
    pub memory_limit: Option<usize>,
    pub clean_frequency: u64,
    /// How many lookups found their record.
    pub hits: u64,
    /// How many lookups did not.
    pub misses: u64,
}

/// A record admitted at `born` is still to be served at `now`.
pub open spec fn alive(born: Option<u64>, lifetime: u64, now: u64) -> bool {
    match born {
        Some(at) => now < at + lifetime,
        None => true,
    }
}

/// The time by which records are ordered from old to new; a record without
/// a time is newer than all that have one.
pub open spec fn age_rank(born: Option<u64>) -> int {
    match born {
        Some(at) => at as int,
        None => u64::MAX + 1,
    }
}

/// `i` is where the oldest record stands: the first of those with the
/// least time.
pub open spec fn is_oldest(born: Seq<Option<u64>>, i: int) -> bool {
    &&& 0 <= i < born.len()
    &&& forall|j: int| 0 <= j < i ==> age_rank(born[i]) < age_rank(#[trigger] born[j])
    &&& forall|j: int| i <= j < born.len() ==> age_rank(born[i]) <= age_rank(#[trigger] born[j])
}

/// Where the oldest record stands.
pub open spec fn oldest(born: Seq<Option<u64>>) -> int {
    choose|i: int| is_oldest(born, i)
}

/// The estimated size of all the records together.
pub open spec fn total_size(records: Seq<RecordView>) -> nat
    decreases records.len(),
{
    if records.len() == 0 {
        0
    } else {
        total_size(records.drop_last()) + records.last().byte_size()
    }
}

/// `record`, with the time `born`, is one of the entries.
pub open spec fn is_entry(entries: CacheEntries, record: RecordView, born: Option<u64>) -> bool {
    exists|j: int|
        0 <= j < entries.records.len() && #[trigger] entries.records[j] == record
            && entries.born[j] == born
}

/// Each entry of `part` is an entry of `whole`, with its time.
pub open spec fn kept_from(part: CacheEntries, whole: CacheEntries) -> bool {
    forall|i: int|
        0 <= i < part.records.len() ==> is_entry(whole, #[trigger] part.records[i], part.born[i])
}

impl CacheEntries {
    /// Each record has a time, and no key occurs twice.
    pub open spec fn wf(self) -> bool {
        self.records.len() == self.born.len() && unique_keys(self.records)
    }

    /// No entries.
    pub open spec fn empty() -> CacheEntries {
        CacheEntries { records: Seq::empty(), born: Seq::empty() }
    }

    /// The first `n` entries.
    pub open spec fn take(self, n: int) -> CacheEntries {
        CacheEntries { records: self.records.take(n), born: self.born.take(n) }
    }

    /// The entries without the one at `i`.
    pub open spec fn remove(self, i: int) -> CacheEntries {
        CacheEntries { records: self.records.remove(i), born: self.born.remove(i) }
    }

    /// The entries after `record` was admitted with the time `stamp`.
    pub open spec fn accept(self, record: RecordView, stamp: Option<u64>) -> CacheEntries {
        CacheEntries {
            records: upsert(self.records, record),
            born: if has_key(self.records, record.key()) {
                self.born.update(position(self.records, record.key()), stamp)
            } else {
                self.born.push(stamp)
            },
        }
    }

    /// The entries after the records of `batch` were admitted one after the
    /// other, all with the time `stamp`.
    pub open spec fn accept_all(self, batch: Seq<RecordView>, stamp: Option<u64>) -> CacheEntries
        decreases batch.len(),
    {
        if batch.len() == 0 {
            self
        } else {
            self.accept_all(batch.drop_last(), stamp).accept(batch.last(), stamp)
        }
    }

    /// The entries whose time is not up at `now`, in their order.
    pub open spec fn live(self, lifetime: u64, now: u64) -> CacheEntries
        decreases self.records.len(),
    {
        if self.records.len() == 0 || self.born.len() != self.records.len() {
            CacheEntries::empty()
        } else {
            let rest = CacheEntries {
                records: self.records.drop_last(),
                born: self.born.drop_last(),
            }.live(lifetime, now);
            if alive(self.born.last(), lifetime, now) {
                CacheEntries {
                    records: rest.records.push(self.records.last()),
                    born: rest.born.push(self.born.last()),
                }
            } else {
                rest
            }
        }
    }

    /// The entries that are left when the oldest is removed again and again
    /// until the estimated size is within `limit`.
    pub open spec fn fitted(self, limit: nat) -> CacheEntries
        decreases self.records.len(),
    {
        let i = oldest(self.born);
        if self.records.len() == 0 || self.born.len() != self.records.len() || total_size(
            self.records,
        ) <= limit || !(0 <= i < self.records.len()) {
            self
        } else {
            self.remove(i).fitted(limit)
        }
    }

    /// The entries with the time `now` given to each that has none.
    pub open spec fn stamped(self, now: u64) -> CacheEntries {
        CacheEntries {
            records: self.records,
            born: Seq::new(
                self.born.len(),
                |i: int|
                    match self.born[i] {
                        Some(at) => Some(at),
                        None => Some(now),
                    },
            ),
        }
    }
}

impl CacheModel {
    /// Each record has a time, and no key occurs twice.
    pub open spec fn wf(self) -> bool {
        self.entries.wf()
    }

    /// The cleaner is to run at `now`.
    pub open spec fn due(self, now: u64) -> bool {
        !self.paused && now >= self.last_clean + self.clean_frequency
    }

    /// The cache after the cleaner ran at `now`.
    pub open spec fn cleaned(self, now: u64) -> CacheModel {
        let live = self.entries.live(self.item_lifetime, now);
        CacheModel {
            entries: match self.memory_limit {
                Some(limit) => live.fitted(limit as nat),
                None => live,
            },
            last_clean: now,
            ..self
        }
    }

    /// The cache after the cleaner had its turn at `now`.
    pub open spec fn clean_if_due(self, now: u64) -> CacheModel {
        if self.due(now) {
            self.cleaned(now)
        } else {
            self
        }
    }

    /// The time that a record admitted at `now` gets.
    pub open spec fn stamp(self, now: u64) -> Option<u64> {
        if self.paused {
            None
        } else {
            Some(now)
        }
    }

    /// The cache after `record` was put at `now`.
    pub open spec fn put(self, record: RecordView, now: u64) -> CacheModel {
        let cleaned = self.clean_if_due(now);
        CacheModel { entries: cleaned.entries.accept(record, self.stamp(now)), ..cleaned }
    }

    /// The cache after the records of `batch` were put at `now`.
    pub open spec fn batch_put(self, batch: Seq<RecordView>, now: u64) -> CacheModel {
        let cleaned = self.clean_if_due(now);
        CacheModel { entries: cleaned.entries.accept_all(batch, self.stamp(now)), ..cleaned }
    }

    /// The record that the cache serves under `key` at `now`, without
    /// cleaning first: the one it holds, unless its time is up and cleaning
    /// is enabled.
    pub open spec fn peek(self, key: KeyView, now: u64) -> Option<RecordView> {
        if has_key(self.entries.records, key) && (self.paused || alive(
            self.entries.born[position(self.entries.records, key)],
            self.item_lifetime,
            now,
        )) {
            lookup(self.entries.records, key)
        } else {
            None
        }
    }

    /// What a lookup of `key` at `now` returns.
    pub open spec fn hit_result(self, key: KeyView, now: u64) -> Option<RecordView> {
        self.clean_if_due(now).peek(key, now)
    }

    /// The cache after a lookup of `key` at `now`.
    pub open spec fn hit_test(self, key: KeyView, now: u64) -> CacheModel {
        let cleaned = self.clean_if_due(now);
        if cleaned.peek(key, now) is Some {
            CacheModel { hits: cleaned.hits.wrapping_add(1), ..cleaned }
        } else {
            CacheModel { misses: cleaned.misses.wrapping_add(1), ..cleaned }
        }
    }

    /// The cache with no record.
    pub open spec fn flush(self) -> CacheModel {
        CacheModel { entries: CacheEntries::empty(), ..self }
    }

    /// The cache with cleaning disabled.
    pub open spec fn disable_clean(self) -> CacheModel {
        CacheModel { paused: true, ..self }
    }

    /// The cache with cleaning enabled again at `now`: the records admitted
    /// while it was disabled count as admitted at `now`.
    pub open spec fn enable_clean(self, now: u64) -> CacheModel {
        CacheModel { paused: false, entries: self.entries.stamped(now), ..self }
    }

    /// The text of the report on the cache.
    pub open spec fn report(self) -> Seq<char> {
        Seq::<char>::empty() + entry("Cache hits: "@, self.hits, ", "@) + entry(
            "misses: "@,
            self.misses,
            ", "@,
        ) + entry("cached size: "@, self.entries.records.len() as u64, " items"@)
    }

    /// A cache as it is made.
    pub open spec fn fresh(
        item_lifetime: Option<u64>,
        memory_limit: Option<usize>,
        clean_frequency: Option<u64>,
    ) -> CacheModel {
        CacheModel {
            entries: CacheEntries::empty(),
            paused: false,
            last_clean: 0,
            item_lifetime: match item_lifetime {
                Some(ms) => ms,
                None => DEFAULT_ITEM_LIFETIME_MS,
            },
            memory_limit,
            clean_frequency: match clean_frequency {
                Some(ms) => ms,
                None => DEFAULT_CLEAN_FREQUENCY_MS,
            },
            hits: 0,
            misses: 0,
        }
    }
}

/// Accepting a batch keeps the entries well formed, and writes the batch
/// into the records.
pub proof fn lemma_accept_all(entries: CacheEntries, batch: Seq<RecordView>, stamp: Option<u64>)
    requires
        entries.wf(),
    ensures
        entries.accept_all(batch, stamp).wf(),
        entries.accept_all(batch, stamp).records == crate::table::upsert_all(entries.records, batch),
    decreases batch.len(),
{
    if batch.len() > 0 {
        lemma_accept_all(entries, batch.drop_last(), stamp);
    }
}

/// Dropping the records whose time is up keeps the entries well formed, and
/// leaves only entries that were there.
pub proof fn lemma_live(entries: CacheEntries, lifetime: u64, now: u64)
    requires
        entries.wf(),
    ensures
        entries.live(lifetime, now).wf(),
        kept_from(entries.live(lifetime, now), entries),
    decreases entries.records.len(),
{
    if entries.records.len() > 0 {
        lemma_live(
            CacheEntries { records: entries.records.drop_last(), born: entries.born.drop_last() },
            lifetime,
            now,
        );
    }
}

/// Dropping the records whose time is up leaves every entry whose time is
/// not up.
pub proof fn lemma_live_keeps(entries: CacheEntries, lifetime: u64, now: u64, j: int)
    requires
        entries.records.len() == entries.born.len(),
        0 <= j < entries.records.len(),
        alive(entries.born[j], lifetime, now),
    ensures
        is_entry(entries.live(lifetime, now), entries.records[j], entries.born[j]),
    decreases entries.records.len(),
{
    let last = entries.records.len() - 1;
    let shorter = CacheEntries {
        records: entries.records.drop_last(),
        born: entries.born.drop_last(),
    };
    let rest = shorter.live(lifetime, now);
    let kept = entries.live(lifetime, now);
    lemma_live_lengths(shorter, lifetime, now);
    if j == last {
        let at = rest.records.len() as int;
        assert(kept.records[at] == entries.records[j] && kept.born[at] == entries.born[j]);
    } else {
        lemma_live_keeps(shorter, lifetime, now, j);
        let m = choose|m: int|
            0 <= m < rest.records.len() && #[trigger] rest.records[m] == shorter.records[j]
                && rest.born[m] == shorter.born[j];
        assert(kept.records[m] == entries.records[j] && kept.born[m] == entries.born[j]);
    }
}

/// Dropping the records whose time is up leaves each record with a time.
pub proof fn lemma_live_lengths(entries: CacheEntries, lifetime: u64, now: u64)
    ensures
        entries.live(lifetime, now).records.len() == entries.live(lifetime, now).born.len(),
    decreases entries.records.len(),
{
    if entries.records.len() > 0 && entries.born.len() == entries.records.len() {
        lemma_live_lengths(
            CacheEntries { records: entries.records.drop_last(), born: entries.born.drop_last() },
            lifetime,
            now,
        );
    }
}

/// Bringing the size within a limit keeps the entries well formed, and
/// leaves only entries that were there.
pub proof fn lemma_fitted(entries: CacheEntries, limit: nat)
    requires
        entries.wf(),
    ensures
        entries.fitted(limit).wf(),
        kept_from(entries.fitted(limit), entries),
    decreases entries.records.len(),
{
    let i = oldest(entries.born);
    if entries.records.len() > 0 && total_size(entries.records) > limit && 0 <= i
        < entries.records.len() {
        lemma_fitted(entries.remove(i), limit);
    }
}

/// Cleaning keeps the cache well formed and leaves only entries that were
/// there: what a key finds afterwards it found before, and what the cache
/// serves afterwards it served before.
pub proof fn lemma_clean_if_due(cache: CacheModel, now: u64)
    requires
        cache.wf(),
    ensures
        cache.clean_if_due(now).wf(),
        kept_from(cache.clean_if_due(now).entries, cache.entries),
        forall|key: KeyView|
            has_key(cache.clean_if_due(now).entries.records, key) ==> #[trigger] lookup(
                cache.clean_if_due(now).entries.records,
                key,
            ) == lookup(cache.entries.records, key),
        forall|key: KeyView, at: u64|
            (#[trigger] cache.clean_if_due(now).peek(key, at)) is Some ==> cache.peek(key, at)
                == cache.clean_if_due(now).peek(key, at),
{
    let before = cache.entries;
    if cache.due(now) {
        lemma_live(before, cache.item_lifetime, now);
        let live = before.live(cache.item_lifetime, now);
        match cache.memory_limit {
            Some(limit) => {
                lemma_fitted(live, limit as nat);
            },
            None => {},
        }
    }
}

/// The timed cache.
pub struct TimedCache {
    records: Vec<DbRecord>,
    born: Vec<Option<u64>>,
    paused: bool,
    last_clean: u64,
    item_lifetime: u64,
    memory_limit: Option<usize>,
    clean_frequency: u64,
    hits: u64,
    misses: u64,
}

impl View for TimedCache {
    type V = CacheModel;

    closed spec fn view(&self) -> CacheModel {
        CacheModel {
            entries: CacheEntries { records: record_views(self.records@), born: self.born@ },
            paused: self.paused,
            last_clean: self.last_clean,
            item_lifetime: self.item_lifetime,
            memory_limit: self.memory_limit,
            clean_frequency: self.clean_frequency,
            hits: self.hits,
            misses: self.misses,
        }
    }
}

/// Whether a record admitted at `born` is still to be served at `now`.
fn is_alive(born: Option<u64>, lifetime: u64, now: u64) -> (yes: bool)
    ensures
        yes == alive(born, lifetime, now),
{
    match born {
        Some(at) => now < at || now - at < lifetime,
        None => true,
    }
}

/// Whether a record admitted at `a` is older than one admitted at `b`.
fn is_older(a: Option<u64>, b: Option<u64>) -> (yes: bool)
    ensures
        yes == (age_rank(a) < age_rank(b)),
{
    match (a, b) {
        (Some(x), Some(y)) => x < y,
        (Some(_), None) => true,
        _ => false,
    }
}

impl TimedCache {
    /// Each record has a time, and no key occurs twice.
    pub open spec fn wf(&self) -> bool {
        self@.wf()
    }

    /// An empty cache with cleaning enabled. Where no time is given, a
    /// record lives for `DEFAULT_ITEM_LIFETIME_MS` and the cleaner waits
    /// `DEFAULT_CLEAN_FREQUENCY_MS`; where no limit is given, there is none.
    pub fn new(
        item_lifetime_ms: Option<u64>,
        memory_limit_bytes: Option<usize>,
        clean_frequency_ms: Option<u64>,
    ) -> (cache: TimedCache)
        ensures
            cache.wf(),
            cache@ == CacheModel::fresh(item_lifetime_ms, memory_limit_bytes, clean_frequency_ms),
    {
        let cache = TimedCache {
            records: Vec::new(),
            born: Vec::new(),
            paused: false,
            last_clean: 0,
            item_lifetime: match item_lifetime_ms {
                Some(ms) => ms,
                None => DEFAULT_ITEM_LIFETIME_MS,
            },
            memory_limit: memory_limit_bytes,
            clean_frequency: match clean_frequency_ms {
                Some(ms) => ms,
                None => DEFAULT_CLEAN_FREQUENCY_MS,
            },
            hits: 0,
            misses: 0,
        };
        assert(cache@.entries.records =~= Seq::empty());
        cache
    }

    /// How many records the cache holds.
    pub fn len(&self) -> (n: usize)
        ensures
            n == self@.entries.records.len(),
    {
        self.records.len()
    }

    /// How many lookups found their record.
    pub fn hit_count(&self) -> (n: u64)
        ensures
            n == self@.hits,
    {
        self.hits
    }

    /// How many lookups did not find their record.
    pub fn miss_count(&self) -> (n: u64)
        ensures
            n == self@.misses,
    {
        self.misses
    }

    /// The report on the cache: how many lookups found their record, how
    /// many did not, and how many records the cache holds.
    pub fn log_metrics(&self) -> (text: String)
        ensures
            text@ == self@.report(),
    {
        let mut text = String::new();
        push_entry(&mut text, "Cache hits: ", self.hits, ", ");
        push_entry(&mut text, "misses: ", self.misses, ", ");
        push_entry(&mut text, "cached size: ", self.records.len() as u64, " items");
        text
    }

    /// The estimated size of all the records together, or `u128::MAX` where
    /// it is more than that.
    pub fn total_bytes(&self) -> (total: u128)
        ensures
            total == if total_size(self@.entries.records) > u128::MAX {
                u128::MAX as nat
            } else {
                total_size(self@.entries.records)
            },
    {
        let ghost views = record_views(self.records@);
        let mut total: u128 = 0;
        let mut i: usize = 0;
        while i < self.records.len()
            invariant
                i <= self.records.len(),
                views == record_views(self.records@),
                total == if total_size(views.take(i as int)) > u128::MAX {
                    u128::MAX as nat
                } else {
                    total_size(views.take(i as int))
                },
            decreases self.records.len() - i,
        {
            let size: u128 = self.records[i].estimated_size();
            proof {
                assert(views.take(i + 1).drop_last() =~= views.take(i as int));
            }
            total = if total > u128::MAX - size {
                u128::MAX
            } else {
                total + size
            };
            i += 1;
        }
        assert(views.take(self.records.len() as int) =~= views);
        total
    }

    /// Where the oldest record stands.
    fn oldest_slot(&self) -> (slot: usize)
        requires
            self.born.len() > 0,
        ensures
            slot < self.born.len(),
            slot == oldest(self.born@),
    {
        let mut slot: usize = 0;
        let mut i: usize = 1;
        while i < self.born.len()
            invariant
                1 <= i <= self.born.len(),
                is_oldest(self.born@.take(i as int), slot as int),
            decreases self.born.len() - i,
        {
            let ghost before = self.born@.take(i as int);
            let ghost after = self.born@.take(i + 1);
            assert forall|j: int| 0 <= j < i implies #[trigger] after[j] == before[j] by {}
            if is_older(self.born[i], self.born[slot]) {
                assert forall|j: int| 0 <= j < i implies age_rank(after[i as int]) < age_rank(
                    #[trigger] after[j],
                ) by {}
                slot = i;
            } else {
                assert forall|j: int| slot <= j < i + 1 implies age_rank(after[slot as int])
                    <= age_rank(#[trigger] after[j]) by {}
                assert forall|j: int| 0 <= j < slot implies age_rank(after[slot as int]) < age_rank(
                    #[trigger] after[j],
                ) by {}
            }
            i += 1;
        }
        proof {
            assert(self.born@.take(self.born.len() as int) =~= self.born@);
        }
        slot
    }

    /// Whether the cache holds a record and its estimated size is over `limit`.
    fn over_limit(&self, limit: usize) -> (over: bool)
        ensures
            over == (self@.entries.records.len() > 0 && total_size(self@.entries.records)
                > limit),
    {
        self.records.len() > 0 && self.total_bytes() > limit as u128
    }

    /// Runs the cleaner.
    fn clean(&mut self, now: u64)
        requires
            old(self).wf(),
        ensures
            final(self).wf(),
            final(self)@ == old(self)@.cleaned(now),
    {
        let ghost start = self@.entries;
        let mut records: Vec<DbRecord> = Vec::new();
        let mut born: Vec<Option<u64>> = Vec::new();
        let mut i: usize = 0;
        assert(record_views(records@) =~= Seq::empty());
        while i < self.records.len()
            invariant
                i <= self.records.len(),
                self.records.len() == self.born.len(),
                start == self@.entries,
                (CacheEntries { records: record_views(records@), born: born@ }) == start.take(
                    i as int,
                ).live(self.item_lifetime, now),
            decreases self.records.len() - i,
        {
            let ghost kept = CacheEntries { records: record_views(records@), born: born@ };
            proof {
                let longer = start.take(i + 1);
                assert(longer.records.drop_last() =~= start.take(i as int).records);
                assert(longer.born.drop_last() =~= start.take(i as int).born);
            }
            if is_alive(self.born[i], self.item_lifetime, now) {
                records.push(self.records[i].clone());
                born.push(self.born[i]);
                assert(record_views(records@) =~= kept.records.push(self.records[i as int]@));
            }
            i += 1;
        }
        proof {
            assert(start.take(self.records.len() as int).records =~= start.records);
            assert(start.take(self.records.len() as int).born =~= start.born);
            lemma_live(start, self.item_lifetime, now);
        }
        self.records = records;
        self.born = born;
        self.last_clean = now;
        if let Some(limit) = self.memory_limit {
            let ghost live = self@.entries;
            while self.over_limit(limit)
                invariant
                    self@.entries.wf(),
                    self@.entries.fitted(limit as nat) == live.fitted(limit as nat),
                    self@ == (CacheModel { entries: self@.entries, last_clean: now, ..old(self)@ }),
                decreases self.records.len(),
            {
                let slot = self.oldest_slot();
                let ghost before = self@.entries;
                self.records.remove(slot);
                self.born.remove(slot);
                assert(self@.entries.records =~= before.remove(slot as int).records);
            }
        }
    }

    /// Runs the cleaner if cleaning is enabled and it is time.
    fn clean_if_due(&mut self, now: u64)
        requires
            old(self).wf(),
        ensures
            final(self).wf(),
            final(self)@ == old(self)@.clean_if_due(now),
    {
        if !self.paused && now >= self.last_clean && now - self.last_clean >= self.clean_frequency {
            self.clean(now);
        }
    }

    /// Admits a record with the time that `now` gives it.
    fn accept(&mut self, record: DbRecord, now: u64)
        requires
            old(self).wf(),
        ensures
            final(self).wf(),
            final(self)@ == (CacheModel {
                entries: old(self)@.entries.accept(record@, old(self)@.stamp(now)),
                ..old(self)@
            }),
    {
        let stamp = if self.paused {
            None
        } else {
            Some(now)
        };
        let slot = upsert_record(&mut self.records, record);
        if slot < self.born.len() {
            self.born[slot] = stamp;
        } else {
            self.born.push(stamp);
        }
    }

    /// Holds `record` under its key from `now` on.
    pub fn put(&mut self, record: &DbRecord, now: u64)
        requires
            old(self).wf(),
        ensures
            final(self).wf(),
            final(self)@ == old(self)@.put(record@, now),
    {
        self.clean_if_due(now);
        self.accept(record.clone(), now);
    }

    /// Holds each of the records under its key from `now` on.
    pub fn batch_put(&mut self, records: &Vec<DbRecord>, now: u64)
        requires
            old(self).wf(),
        ensures
            final(self).wf(),
            final(self)@ == old(self)@.batch_put(record_views(records@), now),
    {
        self.clean_if_due(now);
        let ghost cleaned = self@;
        let ghost batch = record_views(records@);
        let mut i: usize = 0;
        while i < records.len()
            invariant
                i <= records.len(),
                batch == record_views(records@),
                self.wf(),
                self@ == (CacheModel {
                    entries: cleaned.entries.accept_all(batch.take(i as int), cleaned.stamp(now)),
                    ..cleaned
                }),
            decreases records.len() - i,
        {
            self.accept(records[i].clone(), now);
            proof {
                assert(batch.take(i + 1).drop_last() =~= batch.take(i as int));
            }
            i += 1;
        }
        assert(batch.take(records.len() as int) =~= batch);
    }

    /// The record held under `key`, if the cache is to serve it at `now`.
    pub fn hit_test(&mut self, key: &RecordKey, now: u64) -> (found: Option<DbRecord>)
        requires
            old(self).wf(),
        ensures
            final(self).wf(),
            final(self)@ == old(self)@.hit_test(key@, now),
            record_view(found) == old(self)@.hit_result(key@, now),
    {
        self.clean_if_due(now);
        if let Some(i) = find_record(&self.records, key) {
            proof {
                let views = record_views(self.records@);
                lemma_position(views, i as int);
            }
            if self.paused || is_alive(self.born[i], self.item_lifetime, now) {
                self.hits = self.hits.wrapping_add(1);
                return Some(self.records[i].clone());
            }
        }
        self.misses = self.misses.wrapping_add(1);
        None
    }

    /// Drops every record.
    pub fn flush(&mut self)
        ensures
            final(self).wf(),
            final(self)@ == old(self)@.flush(),
    {
        self.records.clear();
        self.born.clear();
        assert(self@.entries.records =~= Seq::empty());
    }

    /// Disables cleaning: until it is enabled again no record's time runs
    /// out, and none is removed for the size's sake.
    pub fn disable_clean(&mut self)
        ensures
            final(self)@ == old(self)@.disable_clean(),
    {
        self.paused = true;
    }

    /// Enables cleaning again. The records admitted while it was disabled
    /// count as admitted at `now`.
    pub fn enable_clean(&mut self, now: u64)
        ensures
            final(self)@ == old(self)@.enable_clean(now),
    {
        self.paused = false;
        let ghost before = self.born@;
        let mut i: usize = 0;
        while i < self.born.len()
            invariant
                i <= self.born.len(),
                self.born.len() == before.len(),
                self.records == old(self).records,
                self.paused == false,
                self.last_clean == old(self).last_clean,
                self.item_lifetime == old(self).item_lifetime,
                self.memory_limit == old(self).memory_limit,
                self.clean_frequency == old(self).clean_frequency,
                self.hits == old(self).hits,
                self.misses == old(self).misses,
                before == old(self).born@,
                forall|j: int| i <= j < before.len() ==> #[trigger] self.born[j] == before[j],
                forall|j: int|
                    0 <= j < i ==> #[trigger] self.born[j] == match before[j] {
                        Some(at) => Some(at),
                        None => Some(now),
                    },
            decreases self.born.len() - i,
        {
            if self.born[i].is_none() {
                self.born[i] = Some(now);
            }
            i += 1;
        }
        assert(self@.entries.born =~= old(self)@.entries.stamped(now).born);
    }
}

} // verus!
