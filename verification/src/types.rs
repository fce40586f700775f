//! The record model: labels, values, the persistable record kinds, and the
//! storage key that each record kind derives.
//!
//! Byte strings are held in `Vec<u8>`; every type that holds one has a view in
//! which the bytes appear as a `Seq<u8>`, and the contracts of the whole crate
//! speak of those views.
use vstd::prelude::*;

verus! {

/// The name under which a user is known to the directory.
#[derive(Debug, PartialEq, Eq, Hash)]
pub struct AkdLabel(pub Vec<u8>);

/// The plaintext value that a user has published.
#[derive(Debug, PartialEq, Eq, Hash)]
pub struct AkdValue(pub Vec<u8>);

/// The position of a node in the tree: up to 256 bits, most significant
/// half first, and the number of bits that count.
#[derive(Clone, Copy, Debug, PartialEq, Eq, Hash, Structural)]
pub struct NodeLabel {
    pub label_high: u128,
    pub label_low: u128,
    pub label_len: u32,
}

/// The directory's metadata record: the commit pointer of the directory.
#[derive(Clone, Copy, Debug, PartialEq, Eq, Structural)]
pub struct Azks {
    pub latest_epoch: u64,
    pub num_nodes: u64,
}

/// A node of the append-only tree. The storage layer never looks inside.
#[derive(Clone, Copy, Debug, PartialEq, Eq, Structural)]
pub struct TreeNode {
    pub label: NodeLabel,
    pub last_epoch: u64,
    pub min_descendant_epoch: u64,
    pub hash_high: u128,
    pub hash_low: u128,
}

/// A user's value at one version.
#[derive(Debug, PartialEq, Eq)]
pub struct ValueState {
    pub username: AkdLabel,
    pub epoch: u64,
    pub version: u64,
    pub label: NodeLabel,
    pub plaintext_val: AkdValue,
}

/// The storage key of a [`ValueState`]: the user's name and the epoch.
#[derive(Debug, PartialEq, Eq, Hash)]
pub struct ValueStateKey(pub Vec<u8>, pub u64);

/// A persistable record.
#[derive(Debug, PartialEq, Eq)]
pub enum DbRecord {
    Azks(Azks),
    TreeNode(TreeNode),
    ValueState(ValueState),
}

/// The storage key of a record, tagged with the record's kind.
#[derive(Debug, PartialEq, Eq, Hash)]
pub enum RecordKey {
    /// The directory has one metadata record.
    Azks,
    TreeNode(NodeLabel),
    ValueState(ValueStateKey),
}

/// All the value states of one user.
#[derive(Debug, PartialEq, Eq)]
pub struct KeyData {
    pub states: Vec<ValueState>,
}

/// Which of a user's value states a query asks for.
#[derive(Clone, Copy, Debug, PartialEq, Eq, Structural)]
pub enum ValueStateRetrievalFlag {
    /// The state with this version.
    SpecificVersion(u64),
    /// The state written in this epoch.
    SpecificEpoch(u64),
    /// The state with the greatest epoch that is not after this one.
    LeqEpoch(u64),
    /// The state with the greatest epoch.
    MaxEpoch,
    /// The state with the least epoch.
    MinEpoch,
}

/// How a batch of writes reaches the backing store.
#[derive(Clone, Copy, Debug, PartialEq, Eq, Structural)]
pub enum DbSetState {
    /// The batch is the content of a committed transaction.
    TransactionCommit,
    /// Any other batch.
    General,
}

/// One row of a bulk version lookup: a user, the epoch of the selected state,
/// and its value.
#[derive(Debug, PartialEq, Eq)]
pub struct UserVersion {
    pub username: AkdLabel,
    pub epoch: u64,
    pub value: AkdValue,
}

/// A value state as the contracts see it: its byte strings as sequences.
pub struct ValueStateView {
    pub username: Seq<u8>,
    pub epoch: u64,
    pub version: u64,
    pub label: NodeLabel,
    pub plaintext_val: Seq<u8>,
}

/// A record as the contracts see it.
pub enum RecordView {
    Azks(Azks),
    TreeNode(TreeNode),
    ValueState(ValueStateView),
}

/// A storage key as the contracts see it: for a value state, the user's
/// name and the epoch.
pub enum KeyView {
    Azks,
    TreeNode(NodeLabel),
    ValueState(Seq<u8>, u64),
}

/// A row of a bulk version lookup as the contracts see it.
pub struct UserVersionView {
    pub username: Seq<u8>,
    pub epoch: u64,
    pub value: Seq<u8>,
}

/// The bytes that stand in the place of a value that was removed.
pub open spec fn tombstone_bytes() -> Seq<u8> {
    Seq::empty()
}

/// Estimated bytes of a value state beside its two byte strings.
pub const VALUE_STATE_FIXED_BYTES: u128 = 52;

/// Estimated bytes of a tree node.
pub const TREE_NODE_BYTES: u128 = 84;

/// Estimated bytes of the directory's metadata record.
pub const AZKS_BYTES: u128 = 16;

impl ValueStateView {
    /// The storage key of the state.
    pub open spec fn key(self) -> KeyView {
        KeyView::ValueState(self.username, self.epoch)
    }

    /// The same state with its value replaced by the tombstone.
    pub open spec fn tombstoned(self) -> ValueStateView {
        ValueStateView { plaintext_val: tombstone_bytes(), ..self }
    }
}

impl RecordView {
    /// The storage key that the record derives.
    pub open spec fn key(self) -> KeyView {
        match self {
            RecordView::Azks(_) => KeyView::Azks,
            RecordView::TreeNode(node) => KeyView::TreeNode(node.label),
            RecordView::ValueState(state) => state.key(),
        }
    }

    /// The estimated size of the record in memory.
    pub open spec fn byte_size(self) -> nat {
        match self {
            RecordView::Azks(_) => AZKS_BYTES as nat,
            RecordView::TreeNode(_) => TREE_NODE_BYTES as nat,
            RecordView::ValueState(state) => (VALUE_STATE_FIXED_BYTES + state.username.len()
                + state.plaintext_val.len()) as nat,
        }
    }
}

impl View for AkdLabel {
    type V = Seq<u8>;

    open spec fn view(&self) -> Seq<u8> {
        self.0@
    }
}

impl View for AkdValue {
    type V = Seq<u8>;

    open spec fn view(&self) -> Seq<u8> {
        self.0@
    }
}

impl View for ValueState {
    type V = ValueStateView;

    open spec fn view(&self) -> ValueStateView {
        ValueStateView {
            username: self.username@,
            epoch: self.epoch,
            version: self.version,
            label: self.label,
            plaintext_val: self.plaintext_val@,
        }
    }
}

impl View for ValueStateKey {
    type V = KeyView;

    open spec fn view(&self) -> KeyView {
        KeyView::ValueState(self.0@, self.1)
    }
}

impl View for DbRecord {
    type V = RecordView;

    open spec fn view(&self) -> RecordView {
        match self {
            DbRecord::Azks(azks) => RecordView::Azks(*azks),
            DbRecord::TreeNode(node) => RecordView::TreeNode(*node),
            DbRecord::ValueState(state) => RecordView::ValueState(state@),
        }
    }
}

impl View for RecordKey {
    type V = KeyView;

    open spec fn view(&self) -> KeyView {
        match self {
            RecordKey::Azks => KeyView::Azks,
            RecordKey::TreeNode(label) => KeyView::TreeNode(*label),
            RecordKey::ValueState(key) => key@,
        }
    }
}

impl View for UserVersion {
    type V = UserVersionView;

    open spec fn view(&self) -> UserVersionView {
        UserVersionView { username: self.username@, epoch: self.epoch, value: self.value@ }
    }
}

/// The views of the records of a list, in the list's order.
pub open spec fn record_views(records: Seq<DbRecord>) -> Seq<RecordView> {
    Seq::new(records.len(), |i: int| records[i]@)
}

/// The views of the value states of a list, in the list's order.
pub open spec fn state_views(states: Seq<ValueState>) -> Seq<ValueStateView> {
    Seq::new(states.len(), |i: int| states[i]@)
}

/// The views of the keys of a list, in the list's order.
pub open spec fn key_views(keys: Seq<RecordKey>) -> Seq<KeyView> {
    Seq::new(keys.len(), |i: int| keys[i]@)
}

/// The views of the rows of a bulk version lookup, in the list's order.
pub open spec fn version_views(rows: Seq<UserVersion>) -> Seq<UserVersionView> {
    Seq::new(rows.len(), |i: int| rows[i]@)
}

/// The views of the labels of a list, in the list's order.
pub open spec fn label_views(labels: Seq<AkdLabel>) -> Seq<Seq<u8>> {
    Seq::new(labels.len(), |i: int| labels[i]@)
}

/// The views of the lists of states of a list, in the list's order.
pub open spec fn data_views(data: Seq<KeyData>) -> Seq<Seq<ValueStateView>> {
    Seq::new(data.len(), |i: int| data[i]@)
}

/// The view of a record that may be absent.
pub open spec fn record_view(record: Option<DbRecord>) -> Option<RecordView> {
    match record {
        Some(record) => Some(record@),
        None => None,
    }
}

/// The call gave this record.
pub open spec fn gave_record<E>(result: Result<DbRecord, E>, record: RecordView) -> bool {
    result matches Ok(given) && given@ == record
}

/// The call gave this value state.
pub open spec fn gave_state<E>(result: Result<ValueState, E>, state: ValueStateView) -> bool {
    result matches Ok(given) && given@ == state
}

/// The view of the record that the call gave, if it gave one.
pub open spec fn given_record<E>(result: Result<DbRecord, E>) -> Option<RecordView> {
    match result {
        Ok(record) => Some(record@),
        Err(_) => None,
    }
}

/// The view of a value state that may be absent.
pub open spec fn state_view(state: Option<ValueState>) -> Option<ValueStateView> {
    match state {
        Some(state) => Some(state@),
        None => None,
    }
}

impl View for KeyData {
    type V = Seq<ValueStateView>;

    open spec fn view(&self) -> Seq<ValueStateView> {
        state_views(self.states@)
    }
}

/// Whether two byte strings hold the same bytes.
pub fn bytes_equal(a: &Vec<u8>, b: &Vec<u8>) -> (same: bool)
    ensures
        same == (a@ == b@),
{
    let same = *a == *b;
    proof {
        if same {
            assert(a@ =~= b@);
        }
    }
    same
}

impl Clone for AkdLabel {
    fn clone(&self) -> (copy: Self)
        ensures
            copy@ == self@,
    {
        AkdLabel(self.0.clone())
    }
}

impl AkdLabel {
    /// Whether the two labels name the same user.
    pub fn same_as(&self, other: &AkdLabel) -> (same: bool)
        ensures
            same == (self@ == other@),
    {
        bytes_equal(&self.0, &other.0)
    }
}

impl Clone for AkdValue {
    fn clone(&self) -> (copy: Self)
        ensures
            copy@ == self@,
    {
        AkdValue(self.0.clone())
    }
}

impl AkdValue {
    /// The value that stands in the place of one that was removed.
    pub fn tombstone() -> (value: AkdValue)
        ensures
            value@ == tombstone_bytes(),
    {
        AkdValue(Vec::new())
    }
}

impl Clone for ValueStateKey {
    fn clone(&self) -> (copy: Self)
        ensures
            copy@ == self@,
    {
        ValueStateKey(self.0.clone(), self.1)
    }
}

impl Clone for ValueState {
    fn clone(&self) -> (copy: Self)
        ensures
            copy@ == self@,
    {
        ValueState {
            username: self.username.clone(),
            epoch: self.epoch,
            version: self.version,
            label: self.label,
            plaintext_val: self.plaintext_val.clone(),
        }
    }
}

impl ValueState {
    /// The storage key of the state.
    pub fn key(&self) -> (key: ValueStateKey)
        ensures
            key@ == self@.key(),
    {
        ValueStateKey(self.username.0.clone(), self.epoch)
    }

    /// A copy of the state whose value is the tombstone; the user, the
    /// epoch, the version and the label stay.
    pub fn tombstoned(&self) -> (state: ValueState)
        ensures
            state@ == self@.tombstoned(),
    {
        ValueState {
            username: self.username.clone(),
            epoch: self.epoch,
            version: self.version,
            label: self.label,
            plaintext_val: AkdValue::tombstone(),
        }
    }
}

impl Clone for DbRecord {
    fn clone(&self) -> (copy: Self)
        ensures
            copy@ == self@,
    {
        match self {
            DbRecord::Azks(azks) => DbRecord::Azks(*azks),
            DbRecord::TreeNode(node) => DbRecord::TreeNode(*node),
            DbRecord::ValueState(state) => DbRecord::ValueState(state.clone()),
        }
    }
}

impl DbRecord {
    /// The storage key that the record derives.
    pub fn key(&self) -> (key: RecordKey)
        ensures
            key@ == self@.key(),
    {
        match self {
            DbRecord::Azks(_) => RecordKey::Azks,
            DbRecord::TreeNode(node) => RecordKey::TreeNode(node.label),
            DbRecord::ValueState(state) => RecordKey::ValueState(state.key()),
        }
    }

    /// Whether the record is stored under `key`.
    pub fn has_key(&self, key: &RecordKey) -> (same: bool)
        ensures
            same == (self@.key() == key@),
    {
        match (self, key) {
            (DbRecord::Azks(_), RecordKey::Azks) => true,
            (DbRecord::TreeNode(node), RecordKey::TreeNode(label)) => node.label == *label,
            (DbRecord::ValueState(state), RecordKey::ValueState(wanted)) => {
                state.epoch == wanted.1 && bytes_equal(&state.username.0, &wanted.0)
            },
            _ => false,
        }
    }

    /// The estimated size of the record in memory.
    pub fn estimated_size(&self) -> (bytes: u128)
        ensures
            bytes == self@.byte_size(),
    {
        match self {
            DbRecord::Azks(_) => AZKS_BYTES,
            DbRecord::TreeNode(_) => TREE_NODE_BYTES,
            DbRecord::ValueState(state) => {
                let name_len: usize = state.username.0.len();
                let value_len: usize = state.plaintext_val.0.len();
                VALUE_STATE_FIXED_BYTES + name_len as u128 + value_len as u128
            },
        }
    }
}

impl Clone for RecordKey {
    fn clone(&self) -> (copy: Self)
        ensures
            copy@ == self@,
    {
        match self {
            RecordKey::Azks => RecordKey::Azks,
            RecordKey::TreeNode(label) => RecordKey::TreeNode(*label),
            RecordKey::ValueState(key) => RecordKey::ValueState(key.clone()),
        }
    }
}

impl RecordKey {
    /// Whether the two keys name the same record.
    pub fn same_as(&self, other: &RecordKey) -> (same: bool)
        ensures
            same == (self@ == other@),
    {
        match (self, other) {
            (RecordKey::Azks, RecordKey::Azks) => true,
            (RecordKey::TreeNode(a), RecordKey::TreeNode(b)) => *a == *b,
            (RecordKey::ValueState(a), RecordKey::ValueState(b)) => {
                a.1 == b.1 && bytes_equal(&a.0, &b.0)
            },
            _ => false,
        }
    }
}

impl Clone for UserVersion {
    fn clone(&self) -> (copy: Self)
        ensures
            copy@ == self@,
    {
        UserVersion {
            username: self.username.clone(),
            epoch: self.epoch,
            value: self.value.clone(),
        }
    }
}

} // verus!
