//! From the outcome of the one read query to an HTTP response.
//!
//! A successful query is answered with status 200 and the whole result set
//! as a JSON array; a failed query is answered with a server-error status
//! and an empty body, never a partial one.

use crate::notes::{json_notes, notes_json, Note};
use vstd::prelude::*;

verus! {

/// A failed database query, with the text the driver gave for it.
pub struct QueryError {
    pub message: String,
}

/// What the notes endpoint answers: a status code and a body.
pub struct NotesResponse {
    pub status: u16,
    pub body: String,
}

/// The response owed for each outcome of the notes query: on success,
/// status 200 and the rows as a JSON array in store order; on failure, the
/// server-error status 500 and an empty body.
pub fn respond_notes(rows: Result<Vec<Note>, QueryError>) -> (r: NotesResponse)
    ensures
        rows matches Ok(notes) ==> r.status == 200 && r.body@ == json_notes(notes@),
        rows is Err ==> r.status == 500 && r.body@ == Seq::<char>::empty(),
{
    match rows {
        Ok(notes) => NotesResponse { status: 200, body: notes_json(&notes) },
        Err(_) => NotesResponse { status: 500, body: String::new() },
    }
}

} // verus!
