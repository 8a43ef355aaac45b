//! Core logic of a small notes service: assigning each request a correlation
//! identifier, rendering the notes table as JSON, and mapping the outcome of
//! the one read query to an HTTP response.

pub mod notes;
pub mod request_id;
pub mod respond;
