//! What the mediator asks of a backing store.
use crate::error::StorageError;
use crate::merge::has_user;
use crate::select::{chosen_state, states_of};
use crate::table::store_all;
use crate::types::{
    AkdLabel, DbRecord, DbSetState, KeyData, KeyView, RecordKey, RecordView, UserVersion,
    UserVersionView, ValueState, ValueStateRetrievalFlag, ValueStateView, key_views, label_views,
    record_views, version_views,
};
use vstd::prelude::*;

verus! {

/// The row gives the epoch and the value of the answer to the query for the
/// row's user.
pub open spec fn row_is_answer(
    stored: Map<KeyView, RecordView>,
    flag: ValueStateRetrievalFlag,
    row: UserVersionView,
) -> bool {
    chosen_state(states_of(stored), row.username, flag) matches Some(state) && state.epoch
        == row.epoch && state.plaintext_val == row.value
}

/// The rows are an answer to a bulk version lookup that agrees with what is
/// stored: each row is for one of `users` and gives the epoch and the value
/// of the answer to the query for its user, and each of `users` for whom the
/// query has an answer has a row.
pub open spec fn rows_are_answers(
    stored: Map<KeyView, RecordView>,
    users: Seq<Seq<u8>>,
    flag: ValueStateRetrievalFlag,
    rows: Seq<UserVersionView>,
) -> bool {
    &&& forall|i: int|
        0 <= i < rows.len() ==> users.contains((#[trigger] rows[i]).username) && row_is_answer(
            stored,
            flag,
            rows[i],
        )
    &&& forall|user: Seq<u8>|
        users.contains(user) && (#[trigger] chosen_state(states_of(stored), user, flag)) is Some
            ==> has_user(rows, user)
}

/// The records are an answer to a batch read of `keys` that agrees with
/// what is stored: each is stored under its key, which is one of `keys`, and
/// the record of each of `keys` that the store holds is among them.
pub open spec fn is_batch_answer(
    stored: Map<KeyView, RecordView>,
    keys: Seq<KeyView>,
    records: Seq<RecordView>,
) -> bool {
    &&& forall|i: int| 0 <= i < records.len() ==> is_requested(stored, keys, #[trigger] records[i])
    &&& forall|key: KeyView|
        keys.contains(key) && #[trigger] stored.contains_key(key) ==> records.contains(stored[key])
}

/// `found` is an answer to a read of `key` that agrees with what is stored:
/// the record stored under the key, or a failure, which is `NotFound` only
/// where nothing is stored under the key.
pub open spec fn is_stored_answer(
    stored: Map<KeyView, RecordView>,
    key: KeyView,
    found: Result<DbRecord, StorageError>,
) -> bool {
    match found {
        Ok(record) => stored.contains_key(key) && stored[key] == record@,
        Err(error) => error is NotFound ==> !stored.contains_key(key),
    }
}

/// What is stored once `record` was stored too.
pub open spec fn stored_with(stored: Map<KeyView, RecordView>, record: RecordView) -> Map<
    KeyView,
    RecordView,
> {
    stored.insert(record.key(), record)
}

/// The record is stored under its key, and the key is one of `keys`.
pub open spec fn is_requested(
    stored: Map<KeyView, RecordView>,
    keys: Seq<KeyView>,
    record: RecordView,
) -> bool {
    keys.contains(record.key()) && stored.contains_key(record.key()) && stored[record.key()]
        == record
}

/// The state is stored, and belongs to `user`.
pub open spec fn is_state_of(
    stored: Map<KeyView, RecordView>,
    user: Seq<u8>,
    state: ValueStateView,
) -> bool {
    states_of(stored).contains(state) && state.username == user
}

/// The states are the stored states of `user`, all of them and no others.
pub open spec fn are_states_of(
    stored: Map<KeyView, RecordView>,
    user: Seq<u8>,
    states: Seq<ValueStateView>,
) -> bool {
    &&& forall|i: int| 0 <= i < states.len() ==> is_state_of(stored, user, #[trigger] states[i])
    &&& forall|state: ValueStateView| #[trigger]
        is_state_of(stored, user, state) ==> states.contains(state)
}

/// `found` is an answer to a user-data query that agrees with what is
/// stored: all the stored states of the user and no others, or a failure,
/// which is `NotFound` only where no state of the user is stored.
pub open spec fn is_user_data(
    stored: Map<KeyView, RecordView>,
    user: Seq<u8>,
    found: Result<KeyData, StorageError>,
) -> bool {
    match found {
        Ok(data) => are_states_of(stored, user, data@),
        Err(error) => error is NotFound ==> are_states_of(stored, user, Seq::empty()),
    }
}

/// A backing store: a map from key to record, and the queries on the value
/// states in it.
///
/// Every call may fail, and of a store as such nothing is promised. A
/// store may in addition be `modeled`: then the contracts say what a call
/// that succeeded has done or found, and what the failure `NotFound` means.
/// Of any other failure they say nothing, and after a write that failed they
/// say nothing of what the store holds.
pub trait Database {
    /// The store keeps the promises that the contracts of this trait make
    /// of `contents`. It does not unless an implementation says so, and
    /// proves it.
    open spec fn modeled(&self) -> bool {
        false
    }

    /// What an implementation needs to hold of itself between calls.
    open spec fn inv(&self) -> bool {
        true
    }

    /// The records that the store holds, by key.
    open spec fn contents(&self) -> Map<KeyView, RecordView> {
        Map::empty()
    }

    /// How the last batch that the store took was handed to it.
    open spec fn last_mode(&self) -> Option<DbSetState> {
        None
    }

    /// Stores a record under its key.
    fn set(&mut self, record: DbRecord) -> (stored: Result<(), StorageError>)
        requires
            old(self).inv(),
        ensures
            final(self).inv(),
            final(self).modeled() == old(self).modeled(),
            old(self).modeled() && stored is Ok ==> final(self).contents() == stored_with(
                old(self).contents(),
                record@,
            ),
    ;

    /// Stores the records, each under its key, one after the other, and
    /// notes how the batch was handed over.
    fn batch_set(&mut self, records: Vec<DbRecord>, state: DbSetState) -> (stored: Result<
        (),
        StorageError,
    >)
        requires
            old(self).inv(),
        ensures
            final(self).inv(),
            final(self).modeled() == old(self).modeled(),
            old(self).modeled() && stored is Ok ==> final(self).contents() == store_all(
                old(self).contents(),
                record_views(records@),
            ),
            old(self).modeled() && stored is Ok ==> final(self).last_mode() == Some(state),
    ;

    /// The record stored under `key`; `NotFound` where there is none.
    fn get(&self, key: &RecordKey) -> (found: Result<DbRecord, StorageError>)
        requires
            self.inv(),
        ensures
            self.modeled() ==> is_stored_answer(self.contents(), key@, found),
    ;

    /// Those of the records stored under `keys` that the store has, in any
    /// order.
    fn batch_get(&self, keys: &Vec<RecordKey>) -> (found: Result<Vec<DbRecord>, StorageError>)
        requires
            self.inv(),
        ensures
            self.modeled() ==> (found matches Ok(records) ==> is_batch_answer(
                self.contents(),
                key_views(keys@),
                record_views(records@),
            )),
    ;

    /// The answer to a user-state query; `NotFound` where it has none.
    fn get_user_state(&self, username: &AkdLabel, flag: ValueStateRetrievalFlag) -> (found: Result<
        ValueState,
        StorageError,
    >)
        requires
            self.inv(),
        ensures
            self.modeled() ==> (found matches Ok(state) ==> chosen_state(
                states_of(self.contents()),
                username@,
                flag,
            ) == Some(state@)),
            self.modeled() ==> (found matches Err(error) ==> (error is NotFound ==> chosen_state(
                states_of(self.contents()),
                username@,
                flag,
            ) is None)),
    ;

    /// All the value states of a user; `NotFound` where the user has none.
    fn get_user_data(&self, username: &AkdLabel) -> (found: Result<KeyData, StorageError>)
        requires
            self.inv(),
        ensures
            self.modeled() ==> is_user_data(self.contents(), username@, found),
    ;

    /// For each of the users for whom the query has an answer: the epoch and
    /// the value of the answer.
    fn get_user_state_versions(
        &self,
        usernames: &Vec<AkdLabel>,
        flag: ValueStateRetrievalFlag,
    ) -> (found: Result<Vec<UserVersion>, StorageError>)
        requires
            self.inv(),
        ensures
            self.modeled() ==> (found matches Ok(rows) ==> rows_are_answers(
                self.contents(),
                label_views(usernames@),
                flag,
                version_views(rows@),
            )),
    ;
}

} // verus!
