//! The transcription history kept in the app's SQLite database.

use vstd::prelude::*;

verus! {

/// One stored transcription.
pub struct Transcription {
    pub id: i64,
    pub transcription: String,
    pub ai: String,
    pub created_at: String,
}

/// Creates the history table if it is missing.
pub const CREATE_TABLE_SQL: &'static str = "CREATE TABLE IF NOT EXISTS transcriptions (
            id INTEGER PRIMARY KEY AUTOINCREMENT,
            transcription TEXT NOT NULL,
            ai TEXT NOT NULL,
            created_at TEXT NOT NULL DEFAULT CURRENT_TIMESTAMP
        )";

/// Adds a transcription.
pub const INSERT_SQL: &'static str = "INSERT INTO transcriptions (transcription, ai) VALUES (?1, ?2)";

/// Sets the polished text of a row.
pub const UPDATE_AI_SQL: &'static str = "UPDATE transcriptions SET ai = ?1 WHERE id = ?2";

/// Reads the history, newest first.
pub const SELECT_ALL_SQL: &'static str = "SELECT id, transcription, ai, created_at
             FROM transcriptions
             ORDER BY created_at DESC";

/// Empties the history.
pub const DELETE_ALL_SQL: &'static str = "DELETE FROM transcriptions";

} // verus!
