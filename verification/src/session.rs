//! The interactive loop as a two-state machine, and the handling of one
//! turn's outcome.
//!
//! The loop is either prompting or terminated. After each turn the sentinel
//! line decides the next state; a terminated session stays terminated. A
//! turn's outcome is either a parsed record — which is always appended to
//! the log — or a recoverable error, which is reported and leaves the log
//! exactly as it was.

use vstd::prelude::*;
use crate::errors::TurnError;
use crate::response_log::{appended_records, content_view, pretty_log_text, update_json_data};
use crate::sentinel::{should_continue, trimmed};

verus! {

/// Where the interactive loop stands.
#[derive(Clone, Copy, Debug, PartialEq, Eq, Structural)]
pub enum SessionState {
    /// Waiting for the next query.
    Prompting,
    /// The session is over; nothing more is read or sent.
    Terminated,
}

/// What one turn leaves behind.
#[derive(Debug)]
pub enum TurnResult {
    /// The record was appended: here is the full new log file text to write.
    Logged(String),
    /// A recoverable error spoiled the turn; the log is untouched and the
    /// loop goes on.
    Skipped(TurnError),
}

/// The sentinel transition of the loop: from `Prompting`, the trimmed
/// literal `"0"` keeps the session prompting and every other line ends it;
/// a terminated session stays terminated.
pub fn next_state(current: SessionState, sentinel_line: &str) -> (r: SessionState)
    ensures
        current is Terminated ==> r is Terminated,
        current is Prompting ==> (r is Prompting <==> trimmed(sentinel_line@) == seq!['0']),
        r is Prompting || r is Terminated,
{
    match current {
        SessionState::Terminated => SessionState::Terminated,
        SessionState::Prompting => {
            if should_continue(sentinel_line) {
                SessionState::Prompting
            } else {
                SessionState::Terminated
            }
        },
    }
}

/// Settle one turn against the log. A parsed record is always appended: the
/// result carries the full new file text, the prior records (empty when the
/// log was absent or malformed) followed by the new one. A failed turn
/// appends nothing: the same error comes back and no new text exists, so
/// the log file stays exactly as it was.
pub fn process_turn(existing: Option<&str>, outcome: Result<serde_json::Value, TurnError>) -> (r:
    TurnResult)
    ensures
        outcome matches Result::Err(e) ==> r == TurnResult::Skipped(e),
        outcome is Ok ==> r is Logged,
        r matches TurnResult::Logged(text) ==> outcome matches Result::Ok(record) && text@
            == pretty_log_text(appended_records(content_view(existing), record)),
{
    match outcome {
        Result::Err(e) => TurnResult::Skipped(e),
        Result::Ok(record) => TurnResult::Logged(update_json_data(existing, record)),
    }
}

} // verus!
