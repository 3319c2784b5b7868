//! Errors of the storage layer.

use vstd::prelude::*;

verus! {

#[verifier::external_type_specification]
#[verifier::external_body]
pub struct ExSqliteError(rusqlite::Error);

#[verifier::external_type_specification]
#[verifier::external_body]
pub struct ExJsonError(serde_json::Error);

/// Errors that can occur during storage operations.
#[derive(Debug)]
pub enum StorageError {
    Connection(String),
    Query(rusqlite::Error),
    Serialization(serde_json::Error),
    HabitNotFound { habit_id: String },
    EntryNotFound { entry_id: String },
    DuplicateEntry { habit_id: String, date: String },
    Migration(String),
}

} // verus!
