use akd_storage::manager::StorageManager;
use akd_storage::memory::MemoryDatabase;
use akd_storage::merge::{merge_states, merge_versions, overrides, put_state, put_user_version};
use akd_storage::report::{push_decimal, push_entry};
use akd_storage::select::{
    choice_of_user, choices_of_users, data_of_users, select_state, state_beats, state_passes,
    states_of_user,
};
use akd_storage::types::{
    bytes_equal, AkdLabel, AkdValue, Azks, DbRecord, KeyData, NodeLabel, RecordKey, TreeNode,
    UserVersion, ValueState, ValueStateKey, ValueStateRetrievalFlag,
};

type Manager = StorageManager<MemoryDatabase>;

fn st(user: &[u8], epoch: u64, version: u64, value: &[u8]) -> ValueState {
    ValueState {
        username: AkdLabel(user.to_vec()),
        epoch,
        version,
        label: NodeLabel { label_high: 1, label_low: 2, label_len: 3 },
        plaintext_val: AkdValue(value.to_vec()),
    }
}

fn row(user: &[u8], epoch: u64, value: &[u8]) -> UserVersion {
    UserVersion { username: AkdLabel(user.to_vec()), epoch, value: AkdValue(value.to_vec()) }
}

#[test]
fn specific_flags_always_take_the_staged_record() {
    for flag in [ValueStateRetrievalFlag::SpecificVersion(1), ValueStateRetrievalFlag::SpecificEpoch(9)] {
        for db_epoch in [0, 3, 4, 5, u64::MAX] {
            assert_eq!(
                Manager::compare_db_and_transaction_records(db_epoch, st(b"u", 4, 1, b"tx"), flag),
                Some(st(b"u", 4, 1, b"tx"))
            );
            assert!(overrides(flag, 4, db_epoch));
        }
    }
}

#[test]
fn range_flags_take_the_staged_record_at_or_after_the_stored_epoch() {
    for flag in [ValueStateRetrievalFlag::LeqEpoch(9), ValueStateRetrievalFlag::MaxEpoch] {
        assert_eq!(
            Manager::compare_db_and_transaction_records(3, st(b"u", 4, 1, b"tx"), flag),
            Some(st(b"u", 4, 1, b"tx"))
        );
        assert_eq!(
            Manager::compare_db_and_transaction_records(4, st(b"u", 4, 1, b"tx"), flag),
            Some(st(b"u", 4, 1, b"tx"))
        );
        assert_eq!(Manager::compare_db_and_transaction_records(5, st(b"u", 4, 1, b"tx"), flag), None);
        assert!(overrides(flag, 4, 3));
        assert!(overrides(flag, 4, 4));
        assert!(!overrides(flag, 4, 5));
    }
}

#[test]
fn min_epoch_takes_the_staged_record_at_or_before_the_stored_epoch() {
    let flag = ValueStateRetrievalFlag::MinEpoch;
    assert_eq!(Manager::compare_db_and_transaction_records(3, st(b"u", 4, 1, b"tx"), flag), None);
    assert_eq!(
        Manager::compare_db_and_transaction_records(4, st(b"u", 4, 1, b"tx"), flag),
        Some(st(b"u", 4, 1, b"tx"))
    );
    assert_eq!(
        Manager::compare_db_and_transaction_records(5, st(b"u", 4, 1, b"tx"), flag),
        Some(st(b"u", 4, 1, b"tx"))
    );
    assert!(!overrides(flag, 4, 3));
    assert!(overrides(flag, 4, 4));
    assert!(overrides(flag, 4, 5));
}

#[test]
fn states_are_written_by_epoch() {
    let mut states = vec![st(b"u", 1, 1, b"a"), st(b"u", 2, 2, b"b")];
    put_state(&mut states, st(b"u", 2, 5, b"c"));
    put_state(&mut states, st(b"u", 3, 3, b"d"));
    put_state(&mut states, st(b"w", 1, 9, b"e"));
    assert_eq!(states, vec![st(b"w", 1, 9, b"e"), st(b"u", 2, 5, b"c"), st(b"u", 3, 3, b"d")]);
}

#[test]
fn stored_and_staged_states_merge_by_epoch() {
    let db = vec![st(b"u", 1, 1, b"db1"), st(b"u", 2, 2, b"db2"), st(b"u", 1, 1, b"db1b")];
    let tx = vec![st(b"u", 3, 3, b"tx3"), st(b"u", 2, 2, b"tx2")];
    assert_eq!(
        merge_states(&db, &tx),
        vec![st(b"u", 1, 1, b"db1b"), st(b"u", 2, 2, b"tx2"), st(b"u", 3, 3, b"tx3")]
    );
    assert_eq!(merge_states(&Vec::new(), &tx), tx);
    assert_eq!(merge_states(&Vec::new(), &Vec::new()), Vec::new());
}

#[test]
fn version_rows_take_the_staged_pair() {
    let mut rows = vec![row(b"a", 5, b"a5"), row(b"b", 5, b"b5")];
    put_user_version(&mut rows, &st(b"a", 7, 2, b"a7"), ValueStateRetrievalFlag::MaxEpoch);
    put_user_version(&mut rows, &st(b"b", 3, 2, b"b3"), ValueStateRetrievalFlag::MaxEpoch);
    put_user_version(&mut rows, &st(b"c", 1, 1, b"c1"), ValueStateRetrievalFlag::MaxEpoch);
    assert_eq!(rows, vec![row(b"a", 7, b"a7"), row(b"b", 5, b"b5"), row(b"c", 1, b"c1")]);
    let merged = merge_versions(
        vec![row(b"a", 5, b"a5"), row(b"b", 5, b"b5")],
        &vec![st(b"a", 7, 2, b"a7"), st(b"b", 3, 2, b"b3")],
        ValueStateRetrievalFlag::MinEpoch,
    );
    assert_eq!(merged, vec![row(b"a", 5, b"a5"), row(b"b", 3, b"b3")]);
    let specific = merge_versions(
        vec![row(b"a", 5, b"a5")],
        &vec![st(b"a", 1, 2, b"a1")],
        ValueStateRetrievalFlag::SpecificVersion(2),
    );
    assert_eq!(specific, vec![row(b"a", 1, b"a1")]);
}

#[test]
fn flags_admit_and_order_states() {
    let early = st(b"u", 2, 1, b"");
    let late = st(b"u", 5, 1, b"");
    assert!(state_passes(ValueStateRetrievalFlag::SpecificVersion(1), &early));
    assert!(!state_passes(ValueStateRetrievalFlag::SpecificVersion(2), &early));
    assert!(state_passes(ValueStateRetrievalFlag::SpecificEpoch(2), &early));
    assert!(!state_passes(ValueStateRetrievalFlag::SpecificEpoch(5), &early));
    assert!(state_passes(ValueStateRetrievalFlag::LeqEpoch(2), &early));
    assert!(!state_passes(ValueStateRetrievalFlag::LeqEpoch(4), &late));
    assert!(state_passes(ValueStateRetrievalFlag::MaxEpoch, &late));
    assert!(state_passes(ValueStateRetrievalFlag::MinEpoch, &late));
    assert!(state_beats(ValueStateRetrievalFlag::MaxEpoch, &late, &early));
    assert!(!state_beats(ValueStateRetrievalFlag::MaxEpoch, &early, &late));
    assert!(!state_beats(ValueStateRetrievalFlag::MaxEpoch, &late, &late));
    assert!(state_beats(ValueStateRetrievalFlag::LeqEpoch(9), &late, &early));
    assert!(state_beats(ValueStateRetrievalFlag::MinEpoch, &early, &late));
    assert!(state_beats(ValueStateRetrievalFlag::SpecificVersion(1), &early, &late));
    assert!(!state_beats(ValueStateRetrievalFlag::SpecificEpoch(2), &early, &late));
}

#[test]
fn selection_over_a_list_of_records() {
    let records = vec![
        DbRecord::Azks(Azks { latest_epoch: 1, num_nodes: 1 }),
        DbRecord::ValueState(st(b"u", 4, 2, b"e4")),
        DbRecord::ValueState(st(b"w", 9, 1, b"w9")),
        DbRecord::ValueState(st(b"u", 6, 3, b"e6")),
    ];
    let u = AkdLabel(b"u".to_vec());
    let x = AkdLabel(b"x".to_vec());
    let w = AkdLabel(b"w".to_vec());
    assert_eq!(select_state(&records, &u, ValueStateRetrievalFlag::MaxEpoch), Some(3));
    assert_eq!(select_state(&records, &u, ValueStateRetrievalFlag::MinEpoch), Some(1));
    assert_eq!(select_state(&records, &x, ValueStateRetrievalFlag::MinEpoch), None);
    assert_eq!(
        choice_of_user(&records, &u, ValueStateRetrievalFlag::LeqEpoch(5)),
        Some(st(b"u", 4, 2, b"e4"))
    );
    assert_eq!(
        states_of_user(&records, &u),
        vec![st(b"u", 4, 2, b"e4"), st(b"u", 6, 3, b"e6")]
    );
    assert_eq!(
        data_of_users(&records, &vec![x.clone(), w.clone(), w.clone()]),
        vec![KeyData { states: vec![st(b"w", 9, 1, b"w9")] }]
    );
    assert_eq!(
        choices_of_users(&records, &vec![u, x, w], ValueStateRetrievalFlag::SpecificVersion(3)),
        vec![st(b"u", 6, 3, b"e6")]
    );
}

#[test]
fn keys_are_derived_from_records() {
    let state = DbRecord::ValueState(st(b"u", 4, 2, b"e4"));
    assert_eq!(state.key(), RecordKey::ValueState(ValueStateKey(b"u".to_vec(), 4)));
    assert_eq!(st(b"u", 4, 2, b"e4").key(), ValueStateKey(b"u".to_vec(), 4));
    let label = NodeLabel { label_high: 5, label_low: 6, label_len: 7 };
    let node = DbRecord::TreeNode(TreeNode {
        label,
        last_epoch: 1,
        min_descendant_epoch: 1,
        hash_high: 0,
        hash_low: 0,
    });
    assert_eq!(node.key(), RecordKey::TreeNode(label));
    assert_eq!(DbRecord::Azks(Azks { latest_epoch: 1, num_nodes: 1 }).key(), RecordKey::Azks);
    assert!(state.has_key(&RecordKey::ValueState(ValueStateKey(b"u".to_vec(), 4))));
    assert!(!state.has_key(&RecordKey::ValueState(ValueStateKey(b"u".to_vec(), 5))));
    assert!(!state.has_key(&RecordKey::ValueState(ValueStateKey(b"v".to_vec(), 4))));
    assert!(!state.has_key(&RecordKey::Azks));
    assert!(node.has_key(&RecordKey::TreeNode(label)));
    assert!(!node.has_key(&RecordKey::TreeNode(NodeLabel { label_len: 8, ..label })));
    assert!(RecordKey::Azks.same_as(&RecordKey::Azks));
    assert!(!RecordKey::Azks.same_as(&RecordKey::TreeNode(label)));
    assert!(state.key().same_as(&state.key()));
    assert!(!state.key().same_as(&node.key()));
    assert!(AkdLabel(b"u".to_vec()).same_as(&AkdLabel(b"u".to_vec())));
    assert!(!AkdLabel(b"u".to_vec()).same_as(&AkdLabel(b"uu".to_vec())));
    assert!(bytes_equal(&Vec::new(), &Vec::new()));
    assert!(!bytes_equal(&vec![1, 2], &vec![1, 3]));
}

#[test]
fn numbers_are_written_in_decimal() {
    let mut text = String::new();
    push_decimal(&mut text, 0);
    assert_eq!(text, "0");
    let mut text = String::from("n=");
    push_decimal(&mut text, 907);
    assert_eq!(text, "n=907");
    let mut text = String::new();
    push_decimal(&mut text, 10);
    push_decimal(&mut text, u64::MAX);
    assert_eq!(text, "1018446744073709551615");
    let mut text = String::from("a");
    push_entry(&mut text, " b ", 42, " c");
    assert_eq!(text, "a b 42 c");
}
