//! How what an open transaction has staged is merged into what the store
//! answers: for one user state, for all the states of a user, and for a bulk
//! lookup of versions.
use crate::types::{
    UserVersion, UserVersionView, ValueState, ValueStateRetrievalFlag, ValueStateView, state_views,
    version_views,
};
use vstd::prelude::*;

verus! {

/// Whether a staged state with epoch `tx_epoch` takes the place of a stored
/// state with epoch `db_epoch`. For the two specific flags it always does;
/// for the others it does when it is at least as far as the stored one in
/// the direction that the flag asks for.
pub open spec fn transaction_overrides(
    flag: ValueStateRetrievalFlag,
    tx_epoch: u64,
    db_epoch: u64,
) -> bool {
    match flag {
        ValueStateRetrievalFlag::SpecificVersion(_) => true,
        ValueStateRetrievalFlag::SpecificEpoch(_) => true,
        ValueStateRetrievalFlag::LeqEpoch(_) => tx_epoch >= db_epoch,
        ValueStateRetrievalFlag::MaxEpoch => tx_epoch >= db_epoch,
        ValueStateRetrievalFlag::MinEpoch => tx_epoch <= db_epoch,
    }
}

/// The answer to a user-state query, given the store's answer and the
/// transaction's.
pub open spec fn merged_state(
    db: Option<ValueStateView>,
    tx: Option<ValueStateView>,
    flag: ValueStateRetrievalFlag,
) -> Option<ValueStateView> {
    match (db, tx) {
        (None, None) => None,
        (None, Some(staged)) => Some(staged),
        (Some(stored), None) => Some(stored),
        (Some(stored), Some(staged)) => if transaction_overrides(
            flag,
            staged.epoch,
            stored.epoch,
        ) {
            Some(staged)
        } else {
            Some(stored)
        },
    }
}

/// The merged answer is the store's answer, not the transaction's.
pub open spec fn answer_is_stored(
    db: Option<ValueStateView>,
    tx: Option<ValueStateView>,
    flag: ValueStateRetrievalFlag,
) -> bool {
    match (db, tx) {
        (Some(stored), None) => true,
        (Some(stored), Some(staged)) => !transaction_overrides(flag, staged.epoch, stored.epoch),
        _ => false,
    }
}

/// Under `LeqEpoch` and `MaxEpoch`, where the store and the transaction both
/// have an answer, the merged answer is the one with the greater epoch, and
/// the transaction's where the epochs are equal.
pub proof fn law_later_epoch_wins(
    db: ValueStateView,
    tx: ValueStateView,
    flag: ValueStateRetrievalFlag,
)
    requires
        flag is LeqEpoch || flag is MaxEpoch,
    ensures
        merged_state(Some(db), Some(tx), flag) == Some(
            if tx.epoch >= db.epoch {
                tx
            } else {
                db
            },
        ),
        merged_state(Some(db), Some(tx), flag).unwrap().epoch == if db.epoch >= tx.epoch {
            db.epoch
        } else {
            tx.epoch
        },
{
}

/// Under `MinEpoch`, where the store and the transaction both have an
/// answer, the merged answer is the one with the lesser epoch, and the
/// transaction's where the epochs are equal.
pub proof fn law_earlier_epoch_wins(db: ValueStateView, tx: ValueStateView)
    ensures
        merged_state(Some(db), Some(tx), ValueStateRetrievalFlag::MinEpoch) == Some(
            if tx.epoch <= db.epoch {
                tx
            } else {
                db
            },
        ),
        merged_state(Some(db), Some(tx), ValueStateRetrievalFlag::MinEpoch).unwrap().epoch == if db.epoch
            <= tx.epoch {
            db.epoch
        } else {
            tx.epoch
        },
{
}

/// Under `SpecificVersion` and `SpecificEpoch`, where the transaction has an
/// answer it is the merged answer, whatever the store has.
pub proof fn law_specific_takes_staged(
    db: Option<ValueStateView>,
    tx: ValueStateView,
    flag: ValueStateRetrievalFlag,
)
    requires
        flag is SpecificVersion || flag is SpecificEpoch,
    ensures
        merged_state(db, Some(tx), flag) == Some(tx),
{
}

/// Some state of the list has this epoch.
pub open spec fn has_epoch(states: Seq<ValueStateView>, epoch: u64) -> bool {
    exists|i: int| 0 <= i < states.len() && (#[trigger] states[i]).epoch == epoch
}

/// `i` is where the first state with this epoch stands.
pub open spec fn is_epoch_slot(states: Seq<ValueStateView>, epoch: u64, i: int) -> bool {
    &&& 0 <= i < states.len()
    &&& states[i].epoch == epoch
    &&& forall|j: int| 0 <= j < i ==> (#[trigger] states[j]).epoch != epoch
}

/// Where the first state with this epoch stands, if the list has one.
pub open spec fn epoch_slot(states: Seq<ValueStateView>, epoch: u64) -> int {
    choose|i: int| is_epoch_slot(states, epoch, i)
}

/// The list after `state` was written by its epoch: it takes the place of
/// the first state with the same epoch, or comes last where there was none.
pub open spec fn put_epoch(states: Seq<ValueStateView>, state: ValueStateView) -> Seq<
    ValueStateView,
> {
    if has_epoch(states, state.epoch) {
        states.update(epoch_slot(states, state.epoch), state)
    } else {
        states.push(state)
    }
}

/// The list after the states of `more` were written by epoch, one after the
/// other.
pub open spec fn put_epochs(states: Seq<ValueStateView>, more: Seq<ValueStateView>) -> Seq<
    ValueStateView,
>
    decreases more.len(),
{
    if more.len() == 0 {
        states
    } else {
        put_epoch(put_epochs(states, more.drop_last()), more.last())
    }
}

/// All the states of a user, given those that the store has and those that
/// the transaction has staged: one state for each epoch, the staged one
/// where both have the epoch.
pub open spec fn merged_user_data(db: Seq<ValueStateView>, tx: Seq<ValueStateView>) -> Seq<
    ValueStateView,
> {
    put_epochs(put_epochs(Seq::empty(), db), tx)
}

/// Some row of the list is for this user.
pub open spec fn has_user(rows: Seq<UserVersionView>, user: Seq<u8>) -> bool {
    exists|i: int| 0 <= i < rows.len() && (#[trigger] rows[i]).username == user
}

/// `i` is where the first row for this user stands.
pub open spec fn is_user_slot(rows: Seq<UserVersionView>, user: Seq<u8>, i: int) -> bool {
    &&& 0 <= i < rows.len()
    &&& rows[i].username == user
    &&& forall|j: int| 0 <= j < i ==> (#[trigger] rows[j]).username != user
}

/// Where the first row for this user stands, if the list has one.
pub open spec fn user_slot(rows: Seq<UserVersionView>, user: Seq<u8>) -> int {
    choose|i: int| is_user_slot(rows, user, i)
}

/// The rows after the transaction's answer for one user was merged in. Where
/// the store has a row for the user, the staged epoch and value take the
/// place of the stored ones if the staged state overrides; where it has
/// none, a row with the staged epoch and value comes last.
pub open spec fn put_version(
    rows: Seq<UserVersionView>,
    staged: ValueStateView,
    flag: ValueStateRetrievalFlag,
) -> Seq<UserVersionView> {
    if has_user(rows, staged.username) {
        let i = user_slot(rows, staged.username);
        if transaction_overrides(flag, staged.epoch, rows[i].epoch) {
            rows.update(
                i,
                UserVersionView { epoch: staged.epoch, value: staged.plaintext_val, ..rows[i] },
            )
        } else {
            rows
        }
    } else {
        rows.push(
            UserVersionView {
                username: staged.username,
                epoch: staged.epoch,
                value: staged.plaintext_val,
            },
        )
    }
}

/// The rows after the transaction's answers were merged in, one after the
/// other.
pub open spec fn put_versions(
    rows: Seq<UserVersionView>,
    staged: Seq<ValueStateView>,
    flag: ValueStateRetrievalFlag,
) -> Seq<UserVersionView>
    decreases staged.len(),
{
    if staged.len() == 0 {
        rows
    } else {
        put_version(put_versions(rows, staged.drop_last(), flag), staged.last(), flag)
    }
}

/// Whether a staged state with epoch `tx_epoch` takes the place of a stored
/// state with epoch `db_epoch`.
pub fn overrides(flag: ValueStateRetrievalFlag, tx_epoch: u64, db_epoch: u64) -> (yes: bool)
    ensures
        yes == transaction_overrides(flag, tx_epoch, db_epoch),
{
    match flag {
        ValueStateRetrievalFlag::SpecificVersion(_) => true,
        ValueStateRetrievalFlag::SpecificEpoch(_) => true,
        ValueStateRetrievalFlag::LeqEpoch(_) => tx_epoch >= db_epoch,
        ValueStateRetrievalFlag::MaxEpoch => tx_epoch >= db_epoch,
        ValueStateRetrievalFlag::MinEpoch => tx_epoch <= db_epoch,
    }
}

/// Writes `state` into `states` by its epoch.
pub fn put_state(states: &mut Vec<ValueState>, state: ValueState)
    ensures
        state_views(final(states)@) == put_epoch(state_views(old(states)@), state@),
{
    let ghost before = state_views(states@);
    let mut i: usize = 0;
    while i < states.len()
        invariant
            i <= states.len(),
            state_views(states@) == before,
            before == state_views(old(states)@),
            forall|j: int| 0 <= j < i ==> (#[trigger] before[j]).epoch != state.epoch,
        decreases states.len() - i,
    {
        if states[i].epoch == state.epoch {
            proof {
                assert(is_epoch_slot(before, state.epoch, i as int));
            }
            states[i] = state;
            return ;
        }
        i += 1;
    }
    states.push(state);
}

/// Merges the transaction's answer for one user into the rows.
pub fn put_user_version(
    rows: &mut Vec<UserVersion>,
    staged: &ValueState,
    flag: ValueStateRetrievalFlag,
)
    ensures
        version_views(final(rows)@) == put_version(version_views(old(rows)@), staged@, flag),
{
    let ghost before = version_views(rows@);
    let mut i: usize = 0;
    while i < rows.len()
        invariant
            i <= rows.len(),
            version_views(rows@) == before,
            before == version_views(old(rows)@),
            forall|j: int| 0 <= j < i ==> (#[trigger] before[j]).username != staged@.username,
        decreases rows.len() - i,
    {
        if rows[i].username.same_as(&staged.username) {
            proof {
                assert(is_user_slot(before, staged@.username, i as int));
            }
            if overrides(flag, staged.epoch, rows[i].epoch) {
                let row = UserVersion {
                    username: rows[i].username.clone(),
                    epoch: staged.epoch,
                    value: staged.plaintext_val.clone(),
                };
                rows[i] = row;
            }
            return ;
        }
        i += 1;
    }
    rows.push(
        UserVersion {
            username: staged.username.clone(),
            epoch: staged.epoch,
            value: staged.plaintext_val.clone(),
        },
    );
}

/// All the states of a user, given those that the store has and those that
/// the transaction has staged.
pub fn merge_states(db: &Vec<ValueState>, tx: &Vec<ValueState>) -> (merged: Vec<ValueState>)
    ensures
        state_views(merged@) == merged_user_data(state_views(db@), state_views(tx@)),
{
    let mut merged: Vec<ValueState> = Vec::new();
    let mut i: usize = 0;
    while i < db.len()
        invariant
            i <= db.len(),
            state_views(merged@) == put_epochs(Seq::empty(), state_views(db@).take(i as int)),
        decreases db.len() - i,
    {
        put_state(&mut merged, db[i].clone());
        proof {
            let views = state_views(db@);
            assert(views.take(i + 1).drop_last() =~= views.take(i as int));
        }
        i += 1;
    }
    assert(state_views(db@).take(db.len() as int) =~= state_views(db@));
    let ghost stored = state_views(merged@);
    let mut k: usize = 0;
    while k < tx.len()
        invariant
            k <= tx.len(),
            state_views(merged@) == put_epochs(stored, state_views(tx@).take(k as int)),
        decreases tx.len() - k,
    {
        put_state(&mut merged, tx[k].clone());
        proof {
            let views = state_views(tx@);
            assert(views.take(k + 1).drop_last() =~= views.take(k as int));
        }
        k += 1;
    }
    assert(state_views(tx@).take(tx.len() as int) =~= state_views(tx@));
    merged
}

/// The rows of a bulk version lookup after the transaction's answers were
/// merged in.
pub fn merge_versions(
    rows: Vec<UserVersion>,
    staged: &Vec<ValueState>,
    flag: ValueStateRetrievalFlag,
) -> (merged: Vec<UserVersion>)
    ensures
        version_views(merged@) == put_versions(version_views(rows@), state_views(staged@), flag),
{
    let mut merged = rows;
    let mut i: usize = 0;
    while i < staged.len()
        invariant
            i <= staged.len(),
            version_views(merged@) == put_versions(
                version_views(rows@),
                state_views(staged@).take(i as int),
                flag,
            ),
        decreases staged.len() - i,
    {
        put_user_version(&mut merged, &staged[i], flag);
        proof {
            let views = state_views(staged@);
            assert(views.take(i + 1).drop_last() =~= views.take(i as int));
        }
        i += 1;
    }
    assert(state_views(staged@).take(staged.len() as int) =~= state_views(staged@));
    merged
}

} // verus!
