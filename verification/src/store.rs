//! Where the clip history is kept and the statements that keep it. The
//! table holds one row per clip. `ClipHistory` is a model of these
//! statements: `record` models delete by key, insert, keep the newest
//! `HISTORY_LIMIT`, and `remove_content` models delete by text. Nothing
//! checks the statements against the model. The limit is bound
//! as a statement parameter, so the table and the model keep the same number.
use vstd::prelude::*;

verus! {

/// Directory under the home directory that holds the database.
pub const DATA_DIR_NAME: &'static str = ".rboardD";

/// File name of the database.
pub const DB_FILE_NAME: &'static str = "clip_data.db";

/// Creates the history table when it is missing; the key column is unique.
pub const CREATE_TABLE_SQL: &'static str = "CREATE TABLE IF NOT EXISTS clip_history (
            id INTEGER PRIMARY KEY,
            content TEXT NOT NULL,
            timestamps DATETIME DEFAULT CURRENT_TIMESTAMP,
            content_hash TEXT UNIQUE
        )";

/// Deletes the row with the given key.
pub const DELETE_BY_HASH_SQL: &'static str = "DELETE  FROM clip_history WHERE content_hash = (?1)";

/// Inserts a clip and its key as the newest row.
pub const INSERT_CLIP_SQL: &'static str = "INSERT INTO clip_history (content, content_hash) VALUES (?1, ?2)";

/// Deletes every row but the newest `?1`; it is run with `HISTORY_LIMIT`.
pub const KEEP_NEWEST_SQL: &'static str = "DELETE FROM clip_history WHERE id NOT IN (
                        SELECT id FROM clip_history 
                        ORDER BY timestamps DESC 
                        LIMIT (?1)
                    )";

/// Selects the texts of the newest `?1` rows, newest first; it is run with
/// `HISTORY_LIMIT`.
pub const SELECT_NEWEST_SQL: &'static str = "SELECT content FROM clip_history ORDER BY timestamps DESC LIMIT (?1)";

/// Deletes every row holding the given text.
pub const DELETE_BY_CONTENT_SQL: &'static str = "DELETE  FROM clip_history WHERE content = (?1)";

} // verus!
