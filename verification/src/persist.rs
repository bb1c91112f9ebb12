//! What persisting an event reports: the store takes it first, and a write-ahead
//! log failure is only warned about.

use vstd::prelude::*;
use vstd::string::*;

verus! {

/// Result of inserting an event.
pub struct InsertResult {
    /// The log commit id (hex), if the append to the log succeeded.
    pub wal_head: Option<String>,
}

/// The result of an insertion once the store has taken the event, given how
/// the append to the log went, and the warning to print when it failed.
pub fn insert_outcome(wal_append: Result<String, String>) -> (r: (InsertResult, Option<String>))
    ensures
        wal_append matches Ok(oid) ==> (r.0.wal_head matches Some(h) && h@ == oid@) && r.1 is None,
        wal_append matches Err(e) ==> r.0.wal_head is None && (r.1 matches Some(w) && w@
            == "Warning: Failed to append to WAL: "@ + e@),
{
    match wal_append {
        Ok(oid) => (InsertResult { wal_head: Some(oid) }, None),
        Err(e) => {
            let mut w = String::from_str("Warning: Failed to append to WAL: ");
            w.append(e.as_str());
            (InsertResult { wal_head: None }, Some(w))
        },
    }
}

/// Appending nothing to the log makes no commit.
pub fn needs_wal_append(event_count: usize) -> (r: bool)
    ensures
        r == (event_count > 0),
{
    event_count > 0
}

} // verus!
