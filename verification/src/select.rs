//! Which of a user's value states a retrieval flag selects.
//!
//! The transaction buffer and the in-memory store answer a user-state query
//! by the same rule, stated here over the set of value states that they hold.
use crate::table::{as_map, unique_keys};
use crate::types::{
    AkdLabel, DbRecord, KeyData, KeyView, RecordView, ValueState, ValueStateRetrievalFlag,
    ValueStateView, data_views, label_views, record_views, state_view, state_views,
};
use vstd::prelude::*;

verus! {

/// The state is one that the flag admits.
pub open spec fn passes(flag: ValueStateRetrievalFlag, state: ValueStateView) -> bool {
    match flag {
        ValueStateRetrievalFlag::SpecificVersion(version) => state.version == version,
        ValueStateRetrievalFlag::SpecificEpoch(epoch) => state.epoch == epoch,
        ValueStateRetrievalFlag::LeqEpoch(epoch) => state.epoch <= epoch,
        ValueStateRetrievalFlag::MaxEpoch => true,
        ValueStateRetrievalFlag::MinEpoch => true,
    }
}

/// Of two states that the flag admits, `a` is at least as good an answer as
/// `b`: the later one for `LeqEpoch` and `MaxEpoch`, the earlier one for
/// `MinEpoch` and `SpecificVersion`.
pub open spec fn prefers(
    flag: ValueStateRetrievalFlag,
    a: ValueStateView,
    b: ValueStateView,
) -> bool {
    match flag {
        ValueStateRetrievalFlag::SpecificVersion(_) => a.epoch <= b.epoch,
        ValueStateRetrievalFlag::SpecificEpoch(_) => true,
        ValueStateRetrievalFlag::LeqEpoch(_) => a.epoch >= b.epoch,
        ValueStateRetrievalFlag::MaxEpoch => a.epoch >= b.epoch,
        ValueStateRetrievalFlag::MinEpoch => a.epoch <= b.epoch,
    }
}

/// The value states among the records of a list.
pub open spec fn states_in(records: Seq<RecordView>) -> Set<ValueStateView> {
    Set::new(
        |state: ValueStateView|
            exists|i: int|
                0 <= i < records.len() && #[trigger] records[i] == RecordView::ValueState(state),
    )
}

/// The value states among the records of a map from key to record.
pub open spec fn states_of(stored: Map<KeyView, RecordView>) -> Set<ValueStateView> {
    Set::new(
        |state: ValueStateView|
            stored.contains_key(state.key()) && stored[state.key()] == RecordView::ValueState(
                state,
            ),
    )
}

/// `state` is in the pool, belongs to `user`, and the flag admits it.
pub open spec fn is_candidate(
    pool: Set<ValueStateView>,
    user: Seq<u8>,
    flag: ValueStateRetrievalFlag,
    state: ValueStateView,
) -> bool {
    pool.contains(state) && state.username == user && passes(flag, state)
}

/// `state` is the answer to the query: a candidate that is at least as good
/// as every candidate.
pub open spec fn is_choice(
    pool: Set<ValueStateView>,
    user: Seq<u8>,
    flag: ValueStateRetrievalFlag,
    state: ValueStateView,
) -> bool {
    is_candidate(pool, user, flag, state) && forall|other: ValueStateView|
        #[trigger] is_candidate(pool, user, flag, other) ==> prefers(flag, state, other)
}

/// The query has no answer: the pool has no candidate.
pub open spec fn no_candidate(
    pool: Set<ValueStateView>,
    user: Seq<u8>,
    flag: ValueStateRetrievalFlag,
) -> bool {
    forall|other: ValueStateView| !#[trigger] is_candidate(pool, user, flag, other)
}

/// No two states of the pool have the same user and epoch.
pub open spec fn keyed(pool: Set<ValueStateView>) -> bool {
    forall|a: ValueStateView, b: ValueStateView|
        #![trigger pool.contains(a), pool.contains(b)]
        pool.contains(a) && pool.contains(b) && a.key() == b.key() ==> a == b
}

/// `answer` is what the query is to be answered with: the choice, or
/// nothing where the pool has no candidate.
pub open spec fn is_answer(
    pool: Set<ValueStateView>,
    user: Seq<u8>,
    flag: ValueStateRetrievalFlag,
    answer: Option<ValueStateView>,
) -> bool {
    match answer {
        Some(state) => is_choice(pool, user, flag, state),
        None => no_candidate(pool, user, flag),
    }
}

/// The states that are read once the staged states are written over the
/// stored ones: the staged states, and the stored states whose user and
/// epoch no staged state has.
pub open spec fn overlay(stored: Set<ValueStateView>, staged: Set<ValueStateView>) -> Set<
    ValueStateView,
> {
    Set::new(
        |state: ValueStateView|
            staged.contains(state) || (stored.contains(state) && !is_shadowed(staged, state)),
    )
}

/// Some staged state has the user and the epoch of `state`.
pub open spec fn is_shadowed(staged: Set<ValueStateView>, state: ValueStateView) -> bool {
    exists|other: ValueStateView| #[trigger] staged.contains(other) && other.key() == state.key()
}

/// The answer to the query, if it has one.
pub open spec fn chosen_state(
    pool: Set<ValueStateView>,
    user: Seq<u8>,
    flag: ValueStateRetrievalFlag,
) -> Option<ValueStateView> {
    if exists|state: ValueStateView| is_choice(pool, user, flag, state) {
        Some(choose|state: ValueStateView| is_choice(pool, user, flag, state))
    } else {
        None
    }
}

/// The states of a list without repeated keys are those of its map, and
/// user and epoch identify each.
pub proof fn lemma_states_of_list(records: Seq<RecordView>)
    requires
        unique_keys(records),
    ensures
        states_in(records) == states_of(as_map(records)),
        keyed(states_in(records)),
{
}

/// Whether the flag admits the state.
pub fn state_passes(flag: ValueStateRetrievalFlag, state: &ValueState) -> (admitted: bool)
    ensures
        admitted == passes(flag, state@),
{
    match flag {
        ValueStateRetrievalFlag::SpecificVersion(version) => state.version == version,
        ValueStateRetrievalFlag::SpecificEpoch(epoch) => state.epoch == epoch,
        ValueStateRetrievalFlag::LeqEpoch(epoch) => state.epoch <= epoch,
        ValueStateRetrievalFlag::MaxEpoch => true,
        ValueStateRetrievalFlag::MinEpoch => true,
    }
}

/// Whether `a` is a strictly better answer than `b`.
pub fn state_beats(flag: ValueStateRetrievalFlag, a: &ValueState, b: &ValueState) -> (better: bool)
    ensures
        better == !prefers(flag, b@, a@),
{
    match flag {
        ValueStateRetrievalFlag::SpecificVersion(_) => a.epoch < b.epoch,
        ValueStateRetrievalFlag::SpecificEpoch(_) => false,
        ValueStateRetrievalFlag::LeqEpoch(_) => a.epoch > b.epoch,
        ValueStateRetrievalFlag::MaxEpoch => a.epoch > b.epoch,
        ValueStateRetrievalFlag::MinEpoch => a.epoch < b.epoch,
    }
}

/// The record at `i` is a value state of `user` that the flag admits.
pub open spec fn candidate_at(
    records: Seq<DbRecord>,
    user: Seq<u8>,
    flag: ValueStateRetrievalFlag,
    i: int,
) -> bool {
    &&& 0 <= i < records.len()
    &&& records[i] is ValueState
    &&& state_at(records, i).username == user
    &&& passes(flag, state_at(records, i))
}

/// The value state that the record at `i` holds.
pub open spec fn state_at(records: Seq<DbRecord>, i: int) -> ValueStateView {
    match records[i] {
        DbRecord::ValueState(state) => state@,
        _ => arbitrary(),
    }
}

/// Where in `records` the answer to the query stands, if it has one.
pub fn select_state(
    records: &Vec<DbRecord>,
    username: &AkdLabel,
    flag: ValueStateRetrievalFlag,
) -> (found: Option<usize>)
    ensures
        match found {
            Some(i) => i < records.len() && records[i as int] is ValueState && is_choice(
                states_in(record_views(records@)),
                username@,
                flag,
                state_at(records@, i as int),
            ),
            None => no_candidate(states_in(record_views(records@)), username@, flag),
        },
{
    let mut best: Option<usize> = None;
    let mut i: usize = 0;
    while i < records.len()
        invariant
            i <= records.len(),
            match best {
                Some(b) => b < i && candidate_at(records@, username@, flag, b as int)
                    && forall|j: int|
                    0 <= j < i && #[trigger] candidate_at(records@, username@, flag, j) ==> prefers(
                        flag,
                        state_at(records@, b as int),
                        state_at(records@, j),
                    ),
                None => forall|j: int|
                    0 <= j < i ==> !#[trigger] candidate_at(records@, username@, flag, j),
            },
        decreases records.len() - i,
    {
        if let DbRecord::ValueState(state) = &records[i] {
            if state.username.same_as(username) && state_passes(flag, state) {
                let replace = match best {
                    Some(b) => {
                        if let DbRecord::ValueState(held) = &records[b] {
                            state_beats(flag, state, held)
                        } else {
                            false
                        }
                    },
                    None => true,
                };
                if replace {
                    best = Some(i);
                }
            }
        }
        i += 1;
    }
    proof {
        let views = record_views(records@);
        let pool = states_in(views);
        assert forall|other: ValueStateView| #[trigger]
            is_candidate(pool, username@, flag, other) implies exists|j: int|
            candidate_at(records@, username@, flag, j) && state_at(records@, j) == other by {
            let j = choose|j: int|
                0 <= j < views.len() && #[trigger] views[j] == RecordView::ValueState(other);
            assert(candidate_at(records@, username@, flag, j));
        }
        match best {
            Some(b) => {
                let chosen = state_at(records@, b as int);
                assert(views[b as int] == RecordView::ValueState(chosen));
            },
            None => {},
        }
    }
    best
}

/// The value states of `user` among the records, in the records' order.
pub open spec fn states_for(records: Seq<RecordView>, user: Seq<u8>) -> Seq<ValueStateView>
    decreases records.len(),
{
    if records.len() == 0 {
        Seq::empty()
    } else {
        let rest = states_for(records.drop_last(), user);
        match records.last() {
            RecordView::ValueState(state) => if state.username == user {
                rest.push(state)
            } else {
                rest
            },
            _ => rest,
        }
    }
}

/// For each user of `users` that has a value state among the records, once
/// and in the order of `users`: the user's states.
pub open spec fn users_data(records: Seq<RecordView>, users: Seq<Seq<u8>>) -> Seq<
    Seq<ValueStateView>,
>
    decreases users.len(),
{
    if users.len() == 0 {
        Seq::empty()
    } else {
        let rest = users_data(records, users.drop_last());
        let states = states_for(records, users.last());
        if users.drop_last().contains(users.last()) || states.len() == 0 {
            rest
        } else {
            rest.push(states)
        }
    }
}

/// For each user of `users` for whom the query has an answer among the
/// records, once and in the order of `users`: the answer.
pub open spec fn users_states(
    records: Seq<RecordView>,
    users: Seq<Seq<u8>>,
    flag: ValueStateRetrievalFlag,
) -> Seq<ValueStateView>
    decreases users.len(),
{
    if users.len() == 0 {
        Seq::empty()
    } else {
        let rest = users_states(records, users.drop_last(), flag);
        if users.drop_last().contains(users.last()) {
            rest
        } else {
            match chosen_state(states_in(records), users.last(), flag) {
                Some(state) => rest.push(state),
                None => rest,
            }
        }
    }
}

/// Whether `name` stands among the first `upto` names.
fn listed_before(names: &Vec<AkdLabel>, upto: usize, name: &AkdLabel) -> (listed: bool)
    requires
        upto <= names.len(),
    ensures
        listed == label_views(names@).take(upto as int).contains(name@),
{
    let ghost views = label_views(names@).take(upto as int);
    let mut j: usize = 0;
    while j < upto
        invariant
            j <= upto <= names.len(),
            views == label_views(names@).take(upto as int),
            forall|k: int| 0 <= k < j ==> (#[trigger] views[k]) != name@,
        decreases upto - j,
    {
        if names[j].same_as(name) {
            assert(views[j as int] == name@);
            return true;
        }
        j += 1;
    }
    false
}

/// The answer to the query among the records, if it has one.
pub fn choice_of_user(
    records: &Vec<DbRecord>,
    username: &AkdLabel,
    flag: ValueStateRetrievalFlag,
) -> (found: Option<ValueState>)
    requires
        unique_keys(record_views(records@)),
    ensures
        state_view(found) == chosen_state(states_in(record_views(records@)), username@, flag),
{
    let found = match select_state(records, username, flag) {
        Some(i) => {
            match &records[i] {
                DbRecord::ValueState(state) => Some(state.clone()),
                _ => None,
            }
        },
        None => None,
    };
    found
}

/// The value states of one user among the records, in the records' order.
pub fn states_of_user(records: &Vec<DbRecord>, username: &AkdLabel) -> (states: Vec<ValueState>)
    ensures
        state_views(states@) == states_for(record_views(records@), username@),
{
    let mut states: Vec<ValueState> = Vec::new();
    let ghost views = record_views(records@);
    let mut i: usize = 0;
    while i < records.len()
        invariant
            i <= records.len(),
            views == record_views(records@),
            state_views(states@) == states_for(views.take(i as int), username@),
        decreases records.len() - i,
    {
        proof {
            assert(views.take(i + 1).drop_last() =~= views.take(i as int));
        }
        if let DbRecord::ValueState(state) = &records[i] {
            if state.username.same_as(username) {
                states.push(state.clone());
            }
        }
        i += 1;
    }
    assert(views.take(records.len() as int) =~= views);
    states
}

/// For each of the users that has a value state among the records, once:
/// the user's states.
pub fn data_of_users(records: &Vec<DbRecord>, usernames: &Vec<AkdLabel>) -> (data: Vec<KeyData>)
    ensures
        data_views(data@) == users_data(record_views(records@), label_views(usernames@)),
{
    let mut data: Vec<KeyData> = Vec::new();
    let ghost users = label_views(usernames@);
    let mut i: usize = 0;
    while i < usernames.len()
        invariant
            i <= usernames.len(),
            users == label_views(usernames@),
            data_views(data@) == users_data(record_views(records@), users.take(i as int)),
        decreases usernames.len() - i,
    {
        proof {
            assert(users.take(i + 1).drop_last() =~= users.take(i as int));
        }
        if !listed_before(usernames, i, &usernames[i]) {
            let states = states_of_user(records, &usernames[i]);
            if states.len() > 0 {
                data.push(KeyData { states });
            }
        }
        i += 1;
    }
    assert(users.take(usernames.len() as int) =~= users);
    data
}

/// For each of the users for whom the query has an answer among the
/// records, once: the answer.
pub fn choices_of_users(
    records: &Vec<DbRecord>,
    usernames: &Vec<AkdLabel>,
    flag: ValueStateRetrievalFlag,
) -> (states: Vec<ValueState>)
    requires
        unique_keys(record_views(records@)),
    ensures
        state_views(states@) == users_states(record_views(records@), label_views(usernames@), flag),
{
    let mut states: Vec<ValueState> = Vec::new();
    let ghost users = label_views(usernames@);
    let mut i: usize = 0;
    while i < usernames.len()
        invariant
            i <= usernames.len(),
            unique_keys(record_views(records@)),
            users == label_views(usernames@),
            state_views(states@) == users_states(record_views(records@), users.take(i as int), flag),
        decreases usernames.len() - i,
    {
        proof {
            assert(users.take(i + 1).drop_last() =~= users.take(i as int));
        }
        if !listed_before(usernames, i, &usernames[i]) {
            if let Some(state) = choice_of_user(records, &usernames[i], flag) {
                states.push(state);
            }
        }
        i += 1;
    }
    assert(users.take(usernames.len() as int) =~= users);
    states
}

} // verus!
