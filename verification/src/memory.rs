//! A backing store that keeps its records in memory. It never fails but to
//! say that something is not there.
use crate::database::{Database, is_batch_answer, is_requested, is_state_of, row_is_answer};
use crate::merge::has_user;
use crate::error::StorageError;
use crate::select::{
    choice_of_user, choices_of_users, chosen_state, is_candidate, is_choice,
    lemma_states_of_list, states_for, states_in, states_of, states_of_user, users_states,
};
use crate::table::{
    as_map, find_record, lemma_position, lemma_upsert_all, lemma_upsert_as_map, lookup, position,
    unique_keys, upsert_all, upsert_record,
};
use crate::types::{
    AkdLabel, DbRecord, DbSetState, KeyData, KeyView, RecordKey, RecordView, UserVersion,
    UserVersionView, ValueState, ValueStateRetrievalFlag, ValueStateView, key_views, label_views,
    record_views, state_views, version_views,
};
use vstd::prelude::*;

verus! {

/// Those of the records stored under `keys` that the list has, in the order
/// of `keys`.
pub open spec fn found_records(records: Seq<RecordView>, keys: Seq<KeyView>) -> Seq<RecordView>
    decreases keys.len(),
{
    if keys.len() == 0 {
        Seq::empty()
    } else {
        let rest = found_records(records, keys.drop_last());
        match lookup(records, keys.last()) {
            Some(record) => rest.push(record),
            None => rest,
        }
    }
}

/// For each state, the row that gives its user, its epoch and its value.
pub open spec fn version_rows(states: Seq<ValueStateView>) -> Seq<UserVersionView> {
    Seq::new(
        states.len(),
        |i: int|
            UserVersionView {
                username: states[i].username,
                epoch: states[i].epoch,
                value: states[i].plaintext_val,
            },
    )
}

/// The found records are an answer to a batch read of `keys` that agrees
/// with the records' map.
pub proof fn lemma_found_records(records: Seq<RecordView>, keys: Seq<KeyView>)
    requires
        unique_keys(records),
    ensures
        is_batch_answer(as_map(records), keys, found_records(records, keys)),
    decreases keys.len(),
{
    let stored = as_map(records);
    let all = found_records(records, keys);
    if keys.len() > 0 {
        let fewer = keys.drop_last();
        let rest = found_records(records, fewer);
        lemma_found_records(records, fewer);
        assert forall|i: int| 0 <= i < all.len() implies is_requested(
            stored,
            keys,
            #[trigger] all[i],
        ) by {
            if i < rest.len() {
                assert(all[i] == rest[i]);
                assert(is_requested(stored, fewer, rest[i]));
                let k = choose|k: int| 0 <= k < fewer.len() && fewer[k] == rest[i].key();
                assert(keys[k] == fewer[k]);
            } else {
                let p = position(records, keys.last());
                assert(0 <= p < records.len() && records[p].key() == keys.last());
                assert(keys[keys.len() - 1] == all[i].key());
            }
        }
        assert forall|key: KeyView|
            keys.contains(key) && #[trigger] stored.contains_key(key) implies all.contains(
            stored[key],
        ) by {
            let k = choose|k: int| 0 <= k < keys.len() && keys[k] == key;
            if k < fewer.len() {
                assert(fewer[k] == key);
                assert(rest.contains(stored[key]));
                let at = choose|at: int| 0 <= at < rest.len() && rest[at] == stored[key];
                assert(all[at] == stored[key]);
            } else {
                assert(all[all.len() - 1] == stored[key]);
            }
        }
    }
}

/// The states of a user among the records are the states of the user in
/// the records' map, all of them and no others.
pub proof fn lemma_states_for(records: Seq<RecordView>, user: Seq<u8>)
    requires
        unique_keys(records),
    ensures
        forall|i: int|
            0 <= i < states_for(records, user).len() ==> is_state_of(
                as_map(records),
                user,
                #[trigger] states_for(records, user)[i],
            ),
        forall|state: ValueStateView| #[trigger]
            is_state_of(as_map(records), user, state) ==> states_for(records, user).contains(state),
{
    lemma_states_of_list(records);
    lemma_states_for_prefix(records, user, records.len() as int);
    assert(records.take(records.len() as int) =~= records);
    assert forall|state: ValueStateView| #[trigger]
        is_state_of(as_map(records), user, state) implies states_for(records, user).contains(
        state,
    ) by {
        let j = choose|j: int|
            0 <= j < records.len() && #[trigger] records[j] == RecordView::ValueState(state);
        assert(records[j] == RecordView::ValueState(state));
    }
}

/// The states of a user among the first `n` records are states of the
/// whole list, and each state of the user among the first `n` records is
/// one of them.
proof fn lemma_states_for_prefix(records: Seq<RecordView>, user: Seq<u8>, n: int)
    requires
        0 <= n <= records.len(),
    ensures
        forall|i: int|
            0 <= i < states_for(records.take(n), user).len() ==> states_in(records).contains(
                #[trigger] states_for(records.take(n), user)[i],
            ) && states_for(records.take(n), user)[i].username == user,
        forall|j: int, state: ValueStateView|
            0 <= j < n && #[trigger] records[j] == RecordView::ValueState(state) && state.username
                == user ==> #[trigger] states_for(records.take(n), user).contains(state),
    decreases n,
{
    if n > 0 {
        lemma_states_for_prefix(records, user, n - 1);
        let prefix = records.take(n);
        let rest = states_for(records.take(n - 1), user);
        let all = states_for(prefix, user);
        assert(prefix.drop_last() =~= records.take(n - 1));
        assert forall|j: int, state: ValueStateView|
            0 <= j < n && #[trigger] records[j] == RecordView::ValueState(state) && state.username
                == user implies #[trigger] all.contains(state) by {
            if j < n - 1 {
                assert(rest.contains(state));
                let k = choose|k: int| 0 <= k < rest.len() && rest[k] == state;
                assert(all[k] == state);
            } else {
                assert(all[all.len() - 1] == state);
            }
        }
    }
}

/// Each of the answers for the users is the answer for its own user, who is
/// one of `users`; and each of `users` for whom the query has an answer has
/// one among them.
pub proof fn lemma_users_states(
    records: Seq<RecordView>,
    users: Seq<Seq<u8>>,
    flag: ValueStateRetrievalFlag,
)
    ensures
        forall|i: int|
            0 <= i < users_states(records, users, flag).len() ==> users.contains(
                (#[trigger] users_states(records, users, flag)[i]).username,
            ) && chosen_state(
                states_in(records),
                users_states(records, users, flag)[i].username,
                flag,
            ) == Some(users_states(records, users, flag)[i]),
        forall|user: Seq<u8>|
            users.contains(user) && (#[trigger] chosen_state(states_in(records), user, flag))
                is Some ==> exists|i: int|
                0 <= i < users_states(records, users, flag).len() && (#[trigger] users_states(
                    records,
                    users,
                    flag,
                )[i]).username == user,
    decreases users.len(),
{
    if users.len() > 0 {
        let fewer = users.drop_last();
        let rest = users_states(records, fewer, flag);
        let all = users_states(records, users, flag);
        lemma_users_states(records, fewer, flag);
        assert forall|i: int| 0 <= i < all.len() implies users.contains(
            (#[trigger] all[i]).username,
        ) && chosen_state(states_in(records), all[i].username, flag) == Some(all[i]) by {
            if i < rest.len() {
                assert(all[i] == rest[i]);
                let k = choose|k: int| 0 <= k < fewer.len() && fewer[k] == rest[i].username;
                assert(users[k] == fewer[k]);
            } else {
                assert(is_choice(states_in(records), users.last(), flag, all[i]));
                assert(is_candidate(states_in(records), users.last(), flag, all[i]));
                assert(users[users.len() - 1] == all[i].username);
            }
        }
        assert forall|user: Seq<u8>|
            users.contains(user) && (#[trigger] chosen_state(states_in(records), user, flag))
                is Some implies exists|i: int|
            0 <= i < all.len() && (#[trigger] all[i]).username == user by {
            if fewer.contains(user) {
                let at = choose|at: int| 0 <= at < rest.len() && (#[trigger] rest[at]).username == user;
                assert(all[at] == rest[at]);
            } else {
                let answer = chosen_state(states_in(records), user, flag)->Some_0;
                let k = choose|k: int| 0 <= k < users.len() && users[k] == user;
                if k < users.len() - 1 {
                    assert(fewer[k] == user);
                }
                assert(users.last() == user);
                assert(is_choice(states_in(records), user, flag, answer));
                assert(is_candidate(states_in(records), user, flag, answer));
                assert(all[all.len() - 1] == answer);
            }
        }
    }
}

/// A store in memory.
pub struct MemoryDatabase {
    records: Vec<DbRecord>,
    mode: Option<DbSetState>,
}

impl MemoryDatabase {
    /// The stored records, each key once, in the order in which the keys
    /// were first written.
    pub closed spec fn stored(&self) -> Seq<RecordView> {
        record_views(self.records@)
    }

    /// A store that holds nothing and has taken no batch.
    pub fn new() -> (db: MemoryDatabase)
        ensures
            db.inv(),
            db.stored() == Seq::<RecordView>::empty(),
            db.contents() == Map::<KeyView, RecordView>::empty(),
            db.last_mode() is None,
    {
        let db = MemoryDatabase { records: Vec::new(), mode: None };
        db
    }

    /// How the last batch that the store took was handed to it.
    pub fn last_batch_mode(&self) -> (mode: Option<DbSetState>)
        ensures
            mode == self.last_mode(),
    {
        self.mode
    }

    /// How many records the store holds.
    pub fn len(&self) -> (n: usize)
        ensures
            n == self.stored().len(),
    {
        self.records.len()
    }
}

impl Database for MemoryDatabase {
    open spec fn modeled(&self) -> bool {
        true
    }

    open spec fn inv(&self) -> bool {
        unique_keys(self.stored())
    }

    open spec fn contents(&self) -> Map<KeyView, RecordView> {
        as_map(self.stored())
    }

    closed spec fn last_mode(&self) -> Option<DbSetState> {
        self.mode
    }

    fn set(&mut self, record: DbRecord) -> (stored: Result<(), StorageError>)
        ensures
            stored is Ok,
            final(self).stored() == crate::table::upsert(old(self).stored(), record@),
            final(self).last_mode() == old(self).last_mode(),
    {
        proof {
            lemma_upsert_as_map(self.stored(), record@);
        }
        upsert_record(&mut self.records, record);
        Ok(())
    }

    fn batch_set(&mut self, records: Vec<DbRecord>, state: DbSetState) -> (stored: Result<
        (),
        StorageError,
    >)
        ensures
            stored is Ok,
            final(self).stored() == upsert_all(old(self).stored(), record_views(records@)),
    {
        let ghost batch = record_views(records@);
        let ghost before = self.stored();
        let mut i: usize = 0;
        while i < records.len()
            invariant
                i <= records.len(),
                batch == record_views(records@),
                unique_keys(self.stored()),
                self.stored() == upsert_all(before, batch.take(i as int)),
            decreases records.len() - i,
        {
            upsert_record(&mut self.records, records[i].clone());
            proof {
                assert(batch.take(i + 1).drop_last() =~= batch.take(i as int));
            }
            i += 1;
        }
        proof {
            assert(batch.take(records.len() as int) =~= batch);
            lemma_upsert_all(before, batch);
        }
        self.mode = Some(state);
        Ok(())
    }

    fn get(&self, key: &RecordKey) -> (found: Result<DbRecord, StorageError>)
        ensures
            match found {
                Ok(record) => lookup(self.stored(), key@) == Some(record@),
                Err(error) => error is NotFound && lookup(self.stored(), key@) is None,
            },
    {
        match find_record(&self.records, key) {
            Some(i) => {
                proof {
                    lemma_position(self.stored(), i as int);
                }
                Ok(self.records[i].clone())
            },
            None => Err(StorageError::NotFound("record".to_owned())),
        }
    }

    fn batch_get(&self, keys: &Vec<RecordKey>) -> (found: Result<Vec<DbRecord>, StorageError>)
        ensures
            found matches Ok(records) && record_views(records@) == found_records(
                self.stored(),
                key_views(keys@),
            ),
    {
        let mut records: Vec<DbRecord> = Vec::new();
        let ghost wanted = key_views(keys@);
        let mut i: usize = 0;
        while i < keys.len()
            invariant
                i <= keys.len(),
                self.inv(),
                wanted == key_views(keys@),
                record_views(records@) == found_records(self.stored(), wanted.take(i as int)),
            decreases keys.len() - i,
        {
            proof {
                assert(wanted.take(i + 1).drop_last() =~= wanted.take(i as int));
            }
            if let Some(at) = find_record(&self.records, &keys[i]) {
                proof {
                    lemma_position(self.stored(), at as int);
                }
                records.push(self.records[at].clone());
            }
            i += 1;
        }
        proof {
            assert(wanted.take(keys.len() as int) =~= wanted);
            lemma_found_records(self.stored(), wanted);
        }
        Ok(records)
    }

    fn get_user_state(&self, username: &AkdLabel, flag: ValueStateRetrievalFlag) -> (found: Result<
        ValueState,
        StorageError,
    >)
        ensures
            match found {
                Ok(state) => chosen_state(states_in(self.stored()), username@, flag) == Some(
                    state@,
                ),
                Err(error) => error is NotFound && chosen_state(
                    states_in(self.stored()),
                    username@,
                    flag,
                ) is None,
            },
    {
        proof {
            lemma_states_of_list(self.stored());
        }
        match choice_of_user(&self.records, username, flag) {
            Some(state) => Ok(state),
            None => Err(StorageError::no_value_state()),
        }
    }

    fn get_user_data(&self, username: &AkdLabel) -> (found: Result<KeyData, StorageError>)
        ensures
            match found {
                Ok(data) => data@ == states_for(self.stored(), username@) && data@.len() > 0,
                Err(error) => error is NotFound && states_for(self.stored(), username@).len() == 0,
            },
    {
        let states = states_of_user(&self.records, username);
        proof {
            lemma_states_for(self.stored(), username@);
            if states.len() == 0 {
                assert forall|state: ValueStateView| !#[trigger] is_state_of(
                    self.contents(),
                    username@,
                    state,
                ) by {
                    if is_state_of(self.contents(), username@, state) {
                        assert(states_for(self.stored(), username@).contains(state));
                    }
                }
            }
        }
        if states.len() == 0 {
            Err(StorageError::no_user_data())
        } else {
            Ok(KeyData { states })
        }
    }

    fn get_user_state_versions(
        &self,
        usernames: &Vec<AkdLabel>,
        flag: ValueStateRetrievalFlag,
    ) -> (found: Result<Vec<UserVersion>, StorageError>)
        ensures
            found matches Ok(rows) && version_views(rows@) == version_rows(
                users_states(self.stored(), label_views(usernames@), flag),
            ),
    {
        let states = choices_of_users(&self.records, usernames, flag);
        let ghost answers = state_views(states@);
        let mut rows: Vec<UserVersion> = Vec::new();
        let mut i: usize = 0;
        while i < states.len()
            invariant
                i <= states.len(),
                answers == state_views(states@),
                version_views(rows@) =~= version_rows(answers.take(i as int)),
            decreases states.len() - i,
        {
            let row = UserVersion {
                username: states[i].username.clone(),
                epoch: states[i].epoch,
                value: states[i].plaintext_val.clone(),
            };
            rows.push(row);
            proof {
                assert(version_rows(answers.take(i + 1)) =~= version_rows(
                    answers.take(i as int),
                ).push(row@));
            }
            i += 1;
        }
        proof {
            lemma_states_of_list(self.stored());
            lemma_users_states(self.stored(), label_views(usernames@), flag);
            let users = label_views(usernames@);
            let given = version_views(rows@);
            assert forall|k: int| 0 <= k < given.len() implies users.contains(
                (#[trigger] given[k]).username,
            ) && row_is_answer(self.contents(), flag, given[k]) by {
                assert(given[k].username == answers[k].username);
            }
            assert forall|user: Seq<u8>|
                users.contains(user) && (#[trigger] chosen_state(
                    states_of(self.contents()),
                    user,
                    flag,
                )) is Some implies has_user(given, user) by {
                let at = choose|at: int|
                    0 <= at < answers.len() && (#[trigger] answers[at]).username == user;
                assert(given[at].username == user);
            }
        }
        Ok(rows)
    }
}

} // verus!
