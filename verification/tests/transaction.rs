use akd_storage::error::StorageError;
use akd_storage::transaction::Transaction;
use akd_storage::types::{
    AkdLabel, AkdValue, Azks, DbRecord, KeyData, NodeLabel, RecordKey, TreeNode, ValueState,
    ValueStateKey, ValueStateRetrievalFlag,
};

fn vs(user: &[u8], epoch: u64, version: u64, value: &[u8]) -> ValueState {
    ValueState {
        username: AkdLabel(user.to_vec()),
        epoch,
        version,
        label: NodeLabel { label_high: 1, label_low: 2, label_len: 3 },
        plaintext_val: AkdValue(value.to_vec()),
    }
}

fn rec(user: &[u8], epoch: u64, version: u64, value: &[u8]) -> DbRecord {
    DbRecord::ValueState(vs(user, epoch, version, value))
}

fn pointer(epoch: u64) -> DbRecord {
    DbRecord::Azks(Azks { latest_epoch: epoch, num_nodes: 0 })
}

fn leaf(low: u128, epoch: u64) -> DbRecord {
    DbRecord::TreeNode(TreeNode {
        label: NodeLabel { label_high: 0, label_low: low, label_len: 8 },
        last_epoch: epoch,
        min_descendant_epoch: 1,
        hash_high: 0,
        hash_low: 0,
    })
}

fn open_buffer() -> Transaction {
    let mut buffer = Transaction::new();
    assert!(buffer.begin_transaction());
    buffer
}

fn name(user: &[u8]) -> AkdLabel {
    AkdLabel(user.to_vec())
}

#[test]
fn buffer_begins_once() {
    let mut buffer = Transaction::new();
    assert!(!buffer.is_transaction_active());
    assert!(buffer.begin_transaction());
    assert!(buffer.is_transaction_active());
    assert!(!buffer.begin_transaction());
    assert!(buffer.is_transaction_active());
}

#[test]
fn last_write_wins_in_the_buffer() {
    let mut buffer = open_buffer();
    buffer.set(&leaf(1, 1));
    buffer.set(&rec(b"u", 1, 1, b"a"));
    buffer.set(&leaf(1, 2));
    buffer.set(&rec(b"u", 1, 1, b"b"));
    assert_eq!(buffer.count(), 2);
    assert_eq!(buffer.get(&leaf(1, 0).key()), Some(leaf(1, 2)));
    assert_eq!(
        buffer.get(&RecordKey::ValueState(ValueStateKey(b"u".to_vec(), 1))),
        Some(rec(b"u", 1, 1, b"b"))
    );
    assert_eq!(buffer.get(&RecordKey::Azks), None);
    assert_eq!(buffer.commit_transaction(), Ok(vec![leaf(1, 2), rec(b"u", 1, 1, b"b")]));
}

#[test]
fn buffer_yields_only_while_a_transaction_is_open() {
    let mut buffer = Transaction::new();
    buffer.set(&rec(b"u", 1, 1, b"a"));
    assert_eq!(buffer.count(), 1);
    assert_eq!(buffer.get(&rec(b"u", 1, 1, b"a").key()), None);
    assert_eq!(buffer.get_user_state(&name(b"u"), ValueStateRetrievalFlag::MaxEpoch), None);
    assert_eq!(buffer.get_user_data(&name(b"u")), Vec::new());
    assert_eq!(buffer.get_users_data(&vec![name(b"u")]), Vec::new());
    assert_eq!(
        buffer.get_users_states(&vec![name(b"u")], ValueStateRetrievalFlag::MaxEpoch),
        Vec::new()
    );
    assert!(buffer.begin_transaction());
    assert_eq!(buffer.get(&rec(b"u", 1, 1, b"a").key()), Some(rec(b"u", 1, 1, b"a")));
}

#[test]
fn commit_clears_and_orders_the_buffer() {
    let mut buffer = open_buffer();
    buffer.batch_set(&vec![pointer(1), leaf(1, 1), rec(b"u", 1, 1, b"a"), pointer(2), leaf(2, 1)]);
    assert_eq!(buffer.count(), 4);
    assert_eq!(
        buffer.commit_transaction(),
        Ok(vec![leaf(1, 1), rec(b"u", 1, 1, b"a"), leaf(2, 1), pointer(2)])
    );
    assert!(!buffer.is_transaction_active());
    assert_eq!(buffer.count(), 0);
    assert!(buffer.begin_transaction());
    assert_eq!(buffer.commit_transaction(), Ok(Vec::new()));
}

#[test]
fn commit_and_rollback_of_an_idle_buffer_fail() {
    let mut buffer = Transaction::new();
    buffer.set(&pointer(1));
    assert!(matches!(buffer.commit_transaction(), Err(StorageError::Transaction(_))));
    assert!(matches!(buffer.rollback_transaction(), Err(StorageError::Transaction(_))));
    assert_eq!(buffer.count(), 1);
}

#[test]
fn rollback_discards_the_buffer() {
    let mut buffer = open_buffer();
    buffer.batch_set(&vec![pointer(1), leaf(1, 1)]);
    assert_eq!(buffer.rollback_transaction(), Ok(()));
    assert!(!buffer.is_transaction_active());
    assert_eq!(buffer.count(), 0);
    assert!(buffer.begin_transaction());
    assert_eq!(buffer.get(&RecordKey::Azks), None);
}

#[test]
fn buffer_selects_user_state_by_flag() {
    let mut buffer = open_buffer();
    buffer.batch_set(&vec![
        rec(b"u", 4, 2, b"e4"),
        rec(b"w", 9, 9, b"other"),
        rec(b"u", 2, 1, b"e2"),
        leaf(1, 1),
        rec(b"u", 8, 3, b"e8"),
        rec(b"u", 6, 2, b"e6"),
    ]);
    let u = name(b"u");
    assert_eq!(
        buffer.get_user_state(&u, ValueStateRetrievalFlag::MaxEpoch),
        Some(vs(b"u", 8, 3, b"e8"))
    );
    assert_eq!(
        buffer.get_user_state(&u, ValueStateRetrievalFlag::MinEpoch),
        Some(vs(b"u", 2, 1, b"e2"))
    );
    assert_eq!(
        buffer.get_user_state(&u, ValueStateRetrievalFlag::LeqEpoch(7)),
        Some(vs(b"u", 6, 2, b"e6"))
    );
    assert_eq!(
        buffer.get_user_state(&u, ValueStateRetrievalFlag::LeqEpoch(4)),
        Some(vs(b"u", 4, 2, b"e4"))
    );
    assert_eq!(buffer.get_user_state(&u, ValueStateRetrievalFlag::LeqEpoch(1)), None);
    assert_eq!(
        buffer.get_user_state(&u, ValueStateRetrievalFlag::SpecificEpoch(6)),
        Some(vs(b"u", 6, 2, b"e6"))
    );
    assert_eq!(buffer.get_user_state(&u, ValueStateRetrievalFlag::SpecificEpoch(5)), None);
    assert_eq!(
        buffer.get_user_state(&u, ValueStateRetrievalFlag::SpecificVersion(2)),
        Some(vs(b"u", 4, 2, b"e4"))
    );
    assert_eq!(
        buffer.get_user_state(&u, ValueStateRetrievalFlag::SpecificVersion(3)),
        Some(vs(b"u", 8, 3, b"e8"))
    );
    assert_eq!(buffer.get_user_state(&u, ValueStateRetrievalFlag::SpecificVersion(7)), None);
    assert_eq!(buffer.get_user_state(&name(b"x"), ValueStateRetrievalFlag::MaxEpoch), None);
}

#[test]
fn buffer_lists_the_states_of_users() {
    let mut buffer = open_buffer();
    buffer.batch_set(&vec![
        rec(b"u", 4, 2, b"e4"),
        rec(b"w", 9, 9, b"w9"),
        rec(b"u", 2, 1, b"e2"),
        pointer(3),
    ]);
    assert_eq!(
        buffer.get_user_data(&name(b"u")),
        vec![vs(b"u", 4, 2, b"e4"), vs(b"u", 2, 1, b"e2")]
    );
    assert_eq!(buffer.get_user_data(&name(b"x")), Vec::new());
    let asked = vec![name(b"w"), name(b"x"), name(b"u"), name(b"w")];
    assert_eq!(
        buffer.get_users_data(&asked),
        vec![
            KeyData { states: vec![vs(b"w", 9, 9, b"w9")] },
            KeyData { states: vec![vs(b"u", 4, 2, b"e4"), vs(b"u", 2, 1, b"e2")] },
        ]
    );
    assert_eq!(
        buffer.get_users_states(&asked, ValueStateRetrievalFlag::MinEpoch),
        vec![vs(b"w", 9, 9, b"w9"), vs(b"u", 2, 1, b"e2")]
    );
    assert_eq!(
        buffer.get_users_states(&asked, ValueStateRetrievalFlag::LeqEpoch(5)),
        vec![vs(b"u", 4, 2, b"e4")]
    );
}

#[test]
fn buffer_report_says_what_is_staged() {
    let mut buffer = Transaction::new();
    assert_eq!(buffer.log_metrics(), "No transaction open, staged records: 0");
    assert!(buffer.begin_transaction());
    buffer.batch_set(&vec![pointer(1), leaf(1, 1), leaf(2, 1)]);
    assert_eq!(buffer.log_metrics(), "Transaction open, staged records: 3");
}
