//! The two-level error taxonomy of the tool.
//!
//! Fatal errors end the whole process: they are conditions under which no
//! further turn can be run. Turn errors are recoverable: the turn is
//! reported and skipped, the log stays as it was, and the loop goes on to
//! the next prompt.

use vstd::prelude::*;

verus! {

/// A condition that ends the process at once.
#[derive(Clone, Copy, Debug, PartialEq, Eq, Structural)]
pub enum FatalError {
    /// The article file could not be read at startup.
    ArticleUnreadable,
    /// The credential environment variable is not set; checked before any
    /// request is assembled, so no network call is ever attempted.
    MissingCredential,
    /// Reading a line from the console failed.
    ConsoleFailure,
    /// The rewritten log could not be written back to the log file.
    LogRewriteFailure,
}

/// A condition that spoils one turn but not the session.
#[derive(Clone, Copy, Debug, PartialEq, Eq, Structural)]
pub enum TurnError {
    /// The request never completed: connection or transport failure.
    Network,
    /// The endpoint answered with a non-success status.
    HttpStatus,
    /// The response body did not deserialize into the expected envelope.
    Deserialize,
}

} // verus!
