//! The errors of the storage layer.
use vstd::prelude::*;

verus! {

/// What can go wrong in the storage layer. The set is closed.
#[derive(Debug, PartialEq, Eq)]
pub enum StorageError {
    /// The record, or the user, is not in the store.
    NotFound(String),
    /// A transaction was used out of turn, or what it staged cannot be committed.
    Transaction(String),
    /// The store could not be reached.
    Connection(String),
    /// Any other failure of the store.
    Other(String),
    /// A record could not be written out or read back.
    SerializationError,
}

/// The message of the error that a user-state query without an answer gives.
pub const NO_VALUE_STATE: &'static str = "ValueState not found for the user";

/// The message of the error that a user-data query without an answer gives.
pub const NO_USER_DATA: &'static str = "ValueState records not found for the user";

/// The message of the error that a commit or a rollback gives when no
/// transaction is open.
pub const NOT_ACTIVE: &'static str = "Transaction not currently active";

/// The message of the error that a commit gives when what was staged does
/// not end in the directory's metadata record.
pub const NO_COMMIT_POINTER: &'static str =
    "The last record in the transaction log is NOT an Azks record";

/// The call failed, and the error says that a transaction was used out of
/// turn or cannot be committed.
pub open spec fn failed_transaction<T>(result: Result<T, StorageError>) -> bool {
    result matches Err(error) && error is Transaction
}

/// The call failed, and the error says that something is not in the store.
pub open spec fn failed_not_found<T>(result: Result<T, StorageError>) -> bool {
    result matches Err(error) && error is NotFound
}

/// The call failed, and not because something is not in the store.
pub open spec fn store_failed<T>(result: Result<T, StorageError>) -> bool {
    result matches Err(error) && !(error is NotFound)
}

impl StorageError {
    /// The error of a user-state query without an answer.
    pub fn no_value_state() -> (error: StorageError)
        ensures
            error matches StorageError::NotFound(message) && message@ == NO_VALUE_STATE@,
    {
        StorageError::NotFound(NO_VALUE_STATE.to_owned())
    }

    /// The error of a user-data query without an answer.
    pub fn no_user_data() -> (error: StorageError)
        ensures
            error matches StorageError::NotFound(message) && message@ == NO_USER_DATA@,
    {
        StorageError::NotFound(NO_USER_DATA.to_owned())
    }

    /// The error of a commit or a rollback without an open transaction.
    pub fn not_active() -> (error: StorageError)
        ensures
            error matches StorageError::Transaction(message) && message@ == NOT_ACTIVE@,
    {
        StorageError::Transaction(NOT_ACTIVE.to_owned())
    }

    /// The error of a commit whose last record is not the directory's
    /// metadata record.
    pub fn no_commit_pointer() -> (error: StorageError)
        ensures
            error matches StorageError::Transaction(message) && message@ == NO_COMMIT_POINTER@,
    {
        StorageError::Transaction(NO_COMMIT_POINTER.to_owned())
    }
}

} // verus!
