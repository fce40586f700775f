//! What holds of the mediator across several of its operations.
//!
//! Each law is stated over the models that the contracts of the operations
//! speak of: a caller who holds those contracts can apply it to the states
//! that the operations left.
use crate::cache::{
    CacheEntries, lemma_accept_all, lemma_clean_if_due, lemma_live, lemma_live_keeps,
};
use crate::model::{ManagerModel, cache_hit, cache_peek};
use crate::merge::merged_state;
use crate::select::{is_answer, is_candidate, is_shadowed, overlay};
use crate::table::{
    has_key, is_member, lemma_store_all_holds, lemma_upsert, lookup, position, store_all,
    unique_keys,
};
use crate::transaction::{commit_order, committable};
use crate::types::{KeyView, RecordView, ValueStateRetrievalFlag, ValueStateView};
use vstd::prelude::*;

verus! {

/// What a commit hands out holds each staged record once: the keys stay
/// distinct, and every staged record is among them.
pub proof fn lemma_commit_order(staged: Seq<RecordView>)
    requires
        unique_keys(staged),
    ensures
        unique_keys(commit_order(staged)),
        commit_order(staged).len() == staged.len(),
        forall|i: int| 0 <= i < staged.len() ==> is_member(commit_order(staged), #[trigger] staged[i]),
        has_key(staged, KeyView::Azks) ==> commit_order(staged).last().key() == KeyView::Azks,
        !has_key(staged, KeyView::Azks) ==> commit_order(staged) == staged,
{
    let batch = commit_order(staged);
    if has_key(staged, KeyView::Azks) {
        let at = position(staged, KeyView::Azks);
        let last = staged.len() - 1;
        assert forall|i: int| 0 <= i < staged.len() implies is_member(batch, #[trigger] staged[i]) by {
            let a = if i == at {
                last
            } else if i < at {
                i
            } else {
                i - 1
            };
            assert(batch[a] == staged[i]);
        }
    }
}

/// After the records of a batch without repeated keys were accepted, each
/// is the one that its key finds, and has the time that the batch was given.
pub proof fn lemma_accepted(
    entries: CacheEntries,
    batch: Seq<RecordView>,
    stamp: Option<u64>,
    i: int,
)
    requires
        entries.wf(),
        unique_keys(batch),
        0 <= i < batch.len(),
    ensures
        has_key(entries.accept_all(batch, stamp).records, batch[i].key()),
        lookup(entries.accept_all(batch, stamp).records, batch[i].key()) == Some(batch[i]),
        entries.accept_all(batch, stamp).born[position(
            entries.accept_all(batch, stamp).records,
            batch[i].key(),
        )] == stamp,
    decreases batch.len(),
{
    let fewer = batch.drop_last();
    let before = entries.accept_all(fewer, stamp);
    lemma_accept_all(entries, fewer, stamp);
    lemma_upsert(before.records, batch.last());
    if i < batch.len() - 1 {
        lemma_accepted(entries, fewer, stamp, i);
    }
}

/// After a commit has succeeded, no transaction is open, and a read of a
/// committed key that does not reach the store returns the committed
/// record: the cache serves that record or none. A store that holds what
/// the commit handed to it holds the committed record under the key.
pub proof fn law_committed_record_is_read(
    before: ManagerModel,
    stored: Map<KeyView, RecordView>,
    now: u64,
    later: u64,
    i: int,
)
    requires
        before.wf(),
        committable(before.transaction.staged),
        0 <= i < before.transaction.staged.len(),
    ensures
        !before.after_commit(now, true).transaction.active,
        before.after_commit(now, true).local_hit(before.transaction.staged[i].key(), later) is None
            || before.after_commit(now, true).local_hit(before.transaction.staged[i].key(), later) == Some(
            before.transaction.staged[i],
        ),
        store_all(stored, commit_order(before.transaction.staged)).contains_key(
            before.transaction.staged[i].key(),
        ),
        store_all(stored, commit_order(before.transaction.staged))[before.transaction.staged[i].key()]
            == before.transaction.staged[i],
{
    let staged = before.transaction.staged;
    let batch = commit_order(staged);
    let record = staged[i];
    lemma_commit_order(staged);
    let j = choose|j: int| 0 <= j < batch.len() && #[trigger] batch[j] == record;
    assert forall|k: int| j < k < batch.len() implies (#[trigger] batch[k]).key() != batch[j].key() by {}
    lemma_store_all_holds(stored, batch, j);
    match before.cache {
        Some(cache) => {
            let resumed = cache.enable_clean(now);
            lemma_clean_if_due(resumed, now);
            let cleaned = resumed.clean_if_due(now);
            let written = resumed.batch_put(batch, now);
            lemma_accept_all(cleaned.entries, batch, resumed.stamp(now));
            lemma_accepted(cleaned.entries, batch, resumed.stamp(now), j);
            lemma_clean_if_due(written, later);
        },
        None => {},
    }
}

/// After a commit at `now` has succeeded, a read of a committed key is
/// served by the cache, and the store is not asked, for as long as the
/// record's time is not up and the size of the cache does not force the
/// record out: the cache has no limit, or the cleaner is not due.
pub proof fn law_committed_record_is_cached(before: ManagerModel, now: u64, later: u64, i: int)
    requires
        before.wf(),
        committable(before.transaction.staged),
        0 <= i < before.transaction.staged.len(),
        before.after_commit(now, true).cache matches Some(cache) && later < now
            + cache.item_lifetime && (cache.memory_limit is None || !cache.due(later)),
    ensures
        before.after_commit(now, true).local_hit(before.transaction.staged[i].key(), later)
            == Some(before.transaction.staged[i]),
{
    let staged = before.transaction.staged;
    let batch = commit_order(staged);
    let record = staged[i];
    lemma_commit_order(staged);
    let j = choose|j: int| 0 <= j < batch.len() && #[trigger] batch[j] == record;
    let cache = before.cache->Some_0;
    let resumed = cache.enable_clean(now);
    lemma_clean_if_due(resumed, now);
    let cleaned = resumed.clean_if_due(now);
    lemma_accept_all(cleaned.entries, batch, resumed.stamp(now));
    lemma_accepted(cleaned.entries, batch, resumed.stamp(now), j);
    let written = resumed.batch_put(batch, now);
    if written.due(later) {
        let at = position(written.entries.records, record.key());
        lemma_live(written.entries, written.item_lifetime, later);
        lemma_live_keeps(written.entries, written.item_lifetime, later, at);
        let live = written.entries.live(written.item_lifetime, later);
    }
}

/// Merging the transaction's answer into the store's gives the answer to
/// the query over what a commit would leave: the staged states written over
/// the stored ones. This holds under every flag but `SpecificVersion`, under
/// which the staged answer is taken whatever its epoch.
pub proof fn law_merged_answer_is_answer_after_commit(
    stored: Set<ValueStateView>,
    staged: Set<ValueStateView>,
    user: Seq<u8>,
    flag: ValueStateRetrievalFlag,
    db: Option<ValueStateView>,
    tx: Option<ValueStateView>,
)
    requires
        !(flag is SpecificVersion),
        is_answer(stored, user, flag, db),
        is_answer(staged, user, flag, tx),
    ensures
        is_answer(overlay(stored, staged), user, flag, merged_state(db, tx, flag)),
{
    let both = overlay(stored, staged);
    let merged = merged_state(db, tx, flag);
    assert forall|other: ValueStateView| #[trigger]
        is_candidate(both, user, flag, other) implies is_candidate(staged, user, flag, other)
        || is_candidate(stored, user, flag, other) by {}
    match merged {
        Some(answer) => {
            if db == Some(answer) && !(tx == Some(answer)) {
                if is_shadowed(staged, answer) {
                    let shadow = choose|shadow: ValueStateView| #[trigger]
                        staged.contains(shadow) && shadow.key() == answer.key();
                    assert(is_candidate(staged, user, flag, shadow));
                }
            }
        },
        None => {},
    }
}

/// After the open transaction was closed, by a rollback or by a commit,
/// nothing that was staged is read from the transaction buffer: no key and
/// no user finds anything there, a read is answered by the cache and the
/// store alone, and a user-state query by the store alone. Closing leaves
/// the counters as they are, and the cache with the records that it held.
pub proof fn law_rollback_discards(
    before: ManagerModel,
    now: u64,
    key: KeyView,
    users: Seq<Seq<u8>>,
    user: Seq<u8>,
    flag: ValueStateRetrievalFlag,
    stored: Option<ValueStateView>,
    later: u64,
)
    ensures
        !before.after_close(now).transaction.active,
        before.after_close(now).transaction.get(key) is None,
        before.after_close(now).transaction.user_state(user, flag) is None,
        before.after_close(now).transaction.user_data(user).len() == 0,
        before.after_close(now).transaction.users_states(users, flag).len() == 0,
        before.after_close(now).local_hit(key, later) == cache_hit(
            before.after_close(now).cache,
            key,
            later,
        ),
        before.after_close(now).user_state(stored, user, flag) == stored,
        before.after_close(now).metrics == before.metrics,
        match (before.cache, before.after_close(now).cache) {
            (Some(held), Some(kept)) => kept.entries.records == held.entries.records,
            (None, None) => true,
            _ => false,
        },
{
}

/// A batch read asks the store only for keys that it was asked for, that
/// the open transaction has not staged and that the cache does not serve,
/// and for none of them twice. Until it asks the store it leaves the
/// transaction and the counters as they are.
pub proof fn law_residual_keys(model: ManagerModel, keys: Seq<KeyView>, now: u64)
    requires
        model.wf(),
    ensures
        model.local_pass(keys, now).state.wf(),
        forall|i: int, j: int|
            0 <= i < j < model.local_pass(keys, now).residual.len() ==> model.local_pass(
                keys,
                now,
            ).residual[i] != model.local_pass(keys, now).residual[j],
        forall|i: int|
            0 <= i < model.local_pass(keys, now).residual.len() ==> keys.contains(
                #[trigger] model.local_pass(keys, now).residual[i],
            ) && model.transaction.get(model.local_pass(keys, now).residual[i]) is None
                && cache_peek(
                model.local_pass(keys, now).state.cache,
                model.local_pass(keys, now).residual[i],
                now,
            ) is None,
        model.local_pass(keys, now).state.transaction == model.transaction,
        model.local_pass(keys, now).state.metrics == model.metrics,
        model.local_pass(keys, now).state.counting == model.counting,
        model.local_pass(keys, now).found.len() + model.local_pass(keys, now).residual.len()
            <= keys.len(),
    decreases keys.len(),
{
    if keys.len() > 0 {
        let fewer = keys.drop_last();
        law_residual_keys(model, fewer, now);
        let before = model.local_pass(fewer, now);
        match before.state.cache {
            Some(cache) => {
                lemma_clean_if_due(cache, now);
            },
            None => {},
        }
    }
}

} // verus!
