use akd_storage::database::Database;
use akd_storage::error::StorageError;
use akd_storage::memory::MemoryDatabase;
use akd_storage::types::{
    AkdLabel, AkdValue, Azks, DbRecord, DbSetState, KeyData, NodeLabel, RecordKey, UserVersion,
    ValueState, ValueStateKey, ValueStateRetrievalFlag,
};

fn held(user: &[u8], epoch: u64, version: u64, value: &[u8]) -> ValueState {
    ValueState {
        username: AkdLabel(user.to_vec()),
        epoch,
        version,
        label: NodeLabel { label_high: 1, label_low: 2, label_len: 3 },
        plaintext_val: AkdValue(value.to_vec()),
    }
}

fn stored(user: &[u8], epoch: u64, version: u64, value: &[u8]) -> DbRecord {
    DbRecord::ValueState(held(user, epoch, version, value))
}

fn key_of(user: &[u8], epoch: u64) -> RecordKey {
    RecordKey::ValueState(ValueStateKey(user.to_vec(), epoch))
}

#[test]
fn store_in_memory_holds_the_last_write() {
    let mut db = MemoryDatabase::new();
    assert_eq!(db.len(), 0);
    assert!(matches!(db.get(&RecordKey::Azks), Err(StorageError::NotFound(_))));
    assert_eq!(db.set(DbRecord::Azks(Azks { latest_epoch: 1, num_nodes: 2 })), Ok(()));
    assert_eq!(db.set(DbRecord::Azks(Azks { latest_epoch: 2, num_nodes: 3 })), Ok(()));
    assert_eq!(db.len(), 1);
    assert_eq!(db.get(&RecordKey::Azks), Ok(DbRecord::Azks(Azks { latest_epoch: 2, num_nodes: 3 })));
    assert_eq!(
        db.batch_set(
            vec![stored(b"u", 1, 1, b"a"), stored(b"u", 1, 1, b"b"), stored(b"u", 2, 2, b"c")],
            DbSetState::General
        ),
        Ok(())
    );
    assert_eq!(db.len(), 3);
    assert_eq!(db.get(&key_of(b"u", 1)), Ok(stored(b"u", 1, 1, b"b")));
}

#[test]
fn store_in_memory_notes_how_a_batch_came() {
    let mut db = MemoryDatabase::new();
    assert_eq!(db.last_batch_mode(), None);
    assert_eq!(db.set(stored(b"u", 1, 1, b"a")), Ok(()));
    assert_eq!(db.last_batch_mode(), None);
    assert_eq!(db.batch_set(vec![stored(b"u", 2, 1, b"a")], DbSetState::General), Ok(()));
    assert_eq!(db.last_batch_mode(), Some(DbSetState::General));
    assert_eq!(db.batch_set(Vec::new(), DbSetState::TransactionCommit), Ok(()));
    assert_eq!(db.last_batch_mode(), Some(DbSetState::TransactionCommit));
    assert_eq!(db.set(stored(b"u", 3, 1, b"a")), Ok(()));
    assert_eq!(db.last_batch_mode(), Some(DbSetState::TransactionCommit));
}

#[test]
fn store_in_memory_returns_only_what_it_has() {
    let mut db = MemoryDatabase::new();
    assert_eq!(
        db.batch_set(
            vec![stored(b"u", 1, 1, b"a"), stored(b"w", 1, 1, b"b")],
            DbSetState::TransactionCommit
        ),
        Ok(())
    );
    assert_eq!(
        db.batch_get(&vec![key_of(b"w", 1), key_of(b"x", 1), RecordKey::Azks, key_of(b"u", 1)]),
        Ok(vec![stored(b"w", 1, 1, b"b"), stored(b"u", 1, 1, b"a")])
    );
    assert_eq!(db.batch_get(&Vec::new()), Ok(Vec::new()));
}

#[test]
fn store_in_memory_answers_user_queries() {
    let mut db = MemoryDatabase::new();
    assert_eq!(
        db.batch_set(
            vec![
                stored(b"u", 4, 2, b"e4"),
                stored(b"w", 9, 1, b"w9"),
                stored(b"u", 6, 3, b"e6"),
            ],
            DbSetState::General
        ),
        Ok(())
    );
    let u = AkdLabel(b"u".to_vec());
    let x = AkdLabel(b"x".to_vec());
    let w = AkdLabel(b"w".to_vec());
    assert_eq!(db.get_user_state(&u, ValueStateRetrievalFlag::MaxEpoch), Ok(held(b"u", 6, 3, b"e6")));
    assert_eq!(
        db.get_user_state(&u, ValueStateRetrievalFlag::LeqEpoch(5)),
        Ok(held(b"u", 4, 2, b"e4"))
    );
    assert!(matches!(
        db.get_user_state(&u, ValueStateRetrievalFlag::LeqEpoch(3)),
        Err(StorageError::NotFound(_))
    ));
    assert_eq!(
        db.get_user_data(&u),
        Ok(KeyData { states: vec![held(b"u", 4, 2, b"e4"), held(b"u", 6, 3, b"e6")] })
    );
    assert!(matches!(db.get_user_data(&x), Err(StorageError::NotFound(_))));
    assert_eq!(
        db.get_user_state_versions(&vec![w.clone(), x, u, w], ValueStateRetrievalFlag::MinEpoch),
        Ok(vec![
            UserVersion { username: AkdLabel(b"w".to_vec()), epoch: 9, value: AkdValue(b"w9".to_vec()) },
            UserVersion { username: AkdLabel(b"u".to_vec()), epoch: 4, value: AkdValue(b"e4".to_vec()) },
        ])
    );
}

#[test]
fn errors_carry_their_messages() {
    assert_eq!(
        StorageError::no_value_state(),
        StorageError::NotFound("ValueState not found for the user".to_string())
    );
    assert_eq!(
        StorageError::no_user_data(),
        StorageError::NotFound("ValueState records not found for the user".to_string())
    );
    assert_eq!(
        StorageError::not_active(),
        StorageError::Transaction("Transaction not currently active".to_string())
    );
    assert_eq!(
        StorageError::no_commit_pointer(),
        StorageError::Transaction(
            "The last record in the transaction log is NOT an Azks record".to_string()
        )
    );
}
