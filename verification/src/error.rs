//! Reasons for which an operation on the ledger is rejected.

use vstd::prelude::*;

verus! {

/// Why an operation was rejected. A rejected operation leaves the ledger
/// exactly as it was.
#[derive(Clone, Copy, Debug, PartialEq, Eq, Structural)]
pub enum Error {
    /// The operation refers to a post that the store does not hold.
    TweetNotFound,
    /// The text is longer than the bound on a post's text.
    TweetTooLong,
    /// The identifier counter has reached the end of its range.
    NoAvailableTweetId,
}

} // verus!
