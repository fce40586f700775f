//! The transaction buffer: the writes of one open transaction, held in
//! memory until they are committed or rolled back.
use crate::error::StorageError;
use crate::report::{entry, push_entry};
use crate::select::{
    choice_of_user, choices_of_users, chosen_state, data_of_users, states_for, states_in,
    states_of_user, users_data, users_states,
};
use crate::table::{
    find_record, has_key, lemma_position, lookup, position, unique_keys, upsert, upsert_all,
    upsert_record,
};
use crate::types::{
    AkdLabel, DbRecord, KeyData, KeyView, RecordKey, RecordView, ValueState,
    ValueStateRetrievalFlag, ValueStateView, data_views, label_views, record_view, record_views,
    state_view, state_views,
};
use vstd::prelude::*;

verus! {

/// What a transaction buffer holds: the staged records, each key once, in
/// the order in which the keys were first written; and whether a
/// transaction is open.
pub struct TransactionModel {
    pub staged: Seq<RecordView>,
    pub active: bool,
}

/// What was staged can be committed: it is empty, or the directory's
/// metadata record is among it, so that the commit ends in it.
pub open spec fn committable(staged: Seq<RecordView>) -> bool {
    staged.len() == 0 || has_key(staged, KeyView::Azks)
}

/// The staged records in the order in which a commit hands them out: the
/// directory's metadata record last, the others as they stand.
pub open spec fn commit_order(staged: Seq<RecordView>) -> Seq<RecordView> {
    if has_key(staged, KeyView::Azks) {
        let i = position(staged, KeyView::Azks);
        staged.remove(i).push(staged[i])
    } else {
        staged
    }
}

impl TransactionModel {
    /// No key is staged twice.
    pub open spec fn wf(self) -> bool {
        unique_keys(self.staged)
    }

    /// The buffer with `record` staged.
    pub open spec fn set(self, record: RecordView) -> TransactionModel {
        TransactionModel { staged: upsert(self.staged, record), ..self }
    }

    /// The buffer with the records of `batch` staged one after the other.
    pub open spec fn batch_set(self, batch: Seq<RecordView>) -> TransactionModel {
        TransactionModel { staged: upsert_all(self.staged, batch), ..self }
    }

    /// What a reader finds under `key`: the staged record, while a
    /// transaction is open.
    pub open spec fn get(self, key: KeyView) -> Option<RecordView> {
        if self.active {
            lookup(self.staged, key)
        } else {
            None
        }
    }

    /// The staged answer to a user-state query, while a transaction is open.
    pub open spec fn user_state(self, user: Seq<u8>, flag: ValueStateRetrievalFlag) -> Option<
        ValueStateView,
    > {
        if self.active {
            chosen_state(states_in(self.staged), user, flag)
        } else {
            None
        }
    }

    /// The staged states of a user, while a transaction is open.
    pub open spec fn user_data(self, user: Seq<u8>) -> Seq<ValueStateView> {
        if self.active {
            states_for(self.staged, user)
        } else {
            Seq::empty()
        }
    }

    /// The staged answers to a user-state query for each of `users`, while a
    /// transaction is open.
    pub open spec fn users_states(
        self,
        users: Seq<Seq<u8>>,
        flag: ValueStateRetrievalFlag,
    ) -> Seq<ValueStateView> {
        if self.active {
            users_states(self.staged, users, flag)
        } else {
            Seq::empty()
        }
    }

    /// The text of the report on the buffer.
    pub open spec fn report(self) -> Seq<char> {
        Seq::<char>::empty() + entry(
            if self.active {
                "Transaction open, staged records: "@
            } else {
                "No transaction open, staged records: "@
            },
            self.staged.len() as u64,
            ""@,
        )
    }

    /// The buffer after a commit or a rollback.
    pub open spec fn closed() -> TransactionModel {
        TransactionModel { staged: Seq::empty(), active: false }
    }
}

/// The transaction buffer.
pub struct Transaction {
    records: Vec<DbRecord>,
    active: bool,
}

impl View for Transaction {
    type V = TransactionModel;

    closed spec fn view(&self) -> TransactionModel {
        TransactionModel { staged: record_views(self.records@), active: self.active }
    }
}

impl Transaction {
    /// No key is staged twice.
    pub open spec fn wf(&self) -> bool {
        self@.wf()
    }

    /// A buffer with nothing staged and no transaction open.
    pub fn new() -> (buffer: Transaction)
        ensures
            buffer@ == TransactionModel::closed(),
            buffer.wf(),
    {
        let buffer = Transaction { records: Vec::new(), active: false };
        assert(buffer@.staged =~= Seq::empty());
        buffer
    }

    /// How many records are staged.
    pub fn count(&self) -> (n: usize)
        ensures
            n == self@.staged.len(),
    {
        self.records.len()
    }

    /// The report on the buffer: whether a transaction is open, and how
    /// many records are staged.
    pub fn log_metrics(&self) -> (text: String)
        ensures
            text@ == self@.report(),
    {
        let mut text = String::new();
        let label = if self.active {
            "Transaction open, staged records: "
        } else {
            "No transaction open, staged records: "
        };
        push_entry(&mut text, label, self.records.len() as u64, "");
        text
    }

    /// Opens a transaction. Returns false, and changes nothing, where one
    /// is open already.
    pub fn begin_transaction(&mut self) -> (started: bool)
        ensures
            started == !old(self)@.active,
            final(self)@ == (TransactionModel { active: true, ..old(self)@ }),
    {
        if self.active {
            false
        } else {
            self.active = true;
            true
        }
    }

    /// Whether a transaction is open.
    pub fn is_transaction_active(&self) -> (active: bool)
        ensures
            active == self@.active,
    {
        self.active
    }

    /// Stages a record. It takes the place of the record staged under the
    /// same key, if there is one.
    pub fn set(&mut self, record: &DbRecord)
        requires
            old(self).wf(),
        ensures
            final(self).wf(),
            final(self)@ == old(self)@.set(record@),
    {
        upsert_record(&mut self.records, record.clone());
    }

    /// Stages the records one after the other.
    pub fn batch_set(&mut self, records: &Vec<DbRecord>)
        requires
            old(self).wf(),
        ensures
            final(self).wf(),
            final(self)@ == old(self)@.batch_set(record_views(records@)),
    {
        let ghost batch = record_views(records@);
        let mut i: usize = 0;
        while i < records.len()
            invariant
                i <= records.len(),
                batch == record_views(records@),
                self.active == old(self).active,
                unique_keys(record_views(self.records@)),
                record_views(self.records@) == upsert_all(old(self)@.staged, batch.take(i as int)),
            decreases records.len() - i,
        {
            upsert_record(&mut self.records, records[i].clone());
            proof {
                assert(batch.take(i + 1).drop_last() =~= batch.take(i as int));
            }
            i += 1;
        }
        assert(batch.take(records.len() as int) =~= batch);
    }

    /// The record staged under `key`, while a transaction is open.
    pub fn get(&self, key: &RecordKey) -> (found: Option<DbRecord>)
        requires
            self.wf(),
        ensures
            record_view(found) == self@.get(key@),
    {
        if !self.active {
            return None;
        }
        match find_record(&self.records, key) {
            Some(i) => {
                proof {
                    let views = record_views(self.records@);
                    lemma_position(views, i as int);
                }
                Some(self.records[i].clone())
            },
            None => None,
        }
    }

    /// The staged answer to a user-state query, while a transaction is open.
    pub fn get_user_state(&self, username: &AkdLabel, flag: ValueStateRetrievalFlag) -> (found:
        Option<ValueState>)
        requires
            self.wf(),
        ensures
            state_view(found) == self@.user_state(username@, flag),
    {
        if !self.active {
            return None;
        }
        choice_of_user(&self.records, username, flag)
    }

    /// The staged states of one user, in the order in which they were first
    /// staged, while a transaction is open.
    pub fn get_user_data(&self, username: &AkdLabel) -> (states: Vec<ValueState>)
        ensures
            state_views(states@) == self@.user_data(username@),
    {
        if !self.active {
            let states: Vec<ValueState> = Vec::new();
            return states;
        }
        states_of_user(&self.records, username)
    }

    /// For each of the users that has staged states, once: those states.
    /// Nothing while no transaction is open.
    pub fn get_users_data(&self, usernames: &Vec<AkdLabel>) -> (data: Vec<KeyData>)
        ensures
            data_views(data@) == if self@.active {
                users_data(self@.staged, label_views(usernames@))
            } else {
                Seq::empty()
            },
    {
        if !self.active {
            let data: Vec<KeyData> = Vec::new();
            return data;
        }
        data_of_users(&self.records, usernames)
    }

    /// For each of the users for whom the query has a staged answer, once:
    /// that answer. Nothing while no transaction is open.
    pub fn get_users_states(&self, usernames: &Vec<AkdLabel>, flag: ValueStateRetrievalFlag) -> (states:
        Vec<ValueState>)
        requires
            self.wf(),
        ensures
            state_views(states@) == self@.users_states(label_views(usernames@), flag),
    {
        if !self.active {
            let states: Vec<ValueState> = Vec::new();
            return states;
        }
        choices_of_users(&self.records, usernames, flag)
    }

    /// Closes the transaction and hands out what was staged, the directory's
    /// metadata record last. Fails, and changes nothing, where no
    /// transaction is open.
    pub fn commit_transaction(&mut self) -> (committed: Result<Vec<DbRecord>, StorageError>)
        requires
            old(self).wf(),
        ensures
            final(self).wf(),
            match committed {
                Ok(records) => old(self)@.active && final(self)@ == TransactionModel::closed()
                    && record_views(records@) == commit_order(old(self)@.staged),
                Err(error) => !old(self)@.active && final(self)@ == old(self)@
                    && error matches StorageError::Transaction(_),
            },
    {
        if !self.active {
            return Err(StorageError::not_active());
        }
        let ghost staged = self@.staged;
        let mut records: Vec<DbRecord> = Vec::new();
        std::mem::swap(&mut records, &mut self.records);
        self.active = false;
        assert(self@.staged =~= Seq::empty());
        if let Some(i) = find_record(&records, &RecordKey::Azks) {
            proof {
                lemma_position(staged, i as int);
            }
            let pointer = records.remove(i);
            records.push(pointer);
        }
        Ok(records)
    }

    /// Closes the transaction and discards what was staged. Fails, and
    /// changes nothing, where no transaction is open.
    pub fn rollback_transaction(&mut self) -> (rolled_back: Result<(), StorageError>)
        ensures
            match rolled_back {
                Ok(_) => old(self)@.active && final(self)@ == TransactionModel::closed(),
                Err(error) => !old(self)@.active && final(self)@ == old(self)@
                    && error matches StorageError::Transaction(_),
            },
            old(self).wf() ==> final(self).wf(),
    {
        if !self.active {
            return Err(StorageError::not_active());
        }
        self.records.clear();
        self.active = false;
        assert(self@.staged =~= Seq::empty());
        Ok(())
    }
}

} // verus!
