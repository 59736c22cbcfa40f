//! The failures this core surfaces. Rejected cursor or view moves are not
//! errors: movement reports them through its boolean result instead.

use vstd::prelude::*;

verus! {

/// What went wrong with a container or persistence operation.
#[derive(Clone, Debug, PartialEq, Eq)]
pub enum CoreError {
    /// A file could not be opened, read, or written; the message names the
    /// attempted path. Only the I/O shell around this core constructs it.
    Io(String),
    /// An out-of-bounds line or character access.
    Index,
}

} // verus!
