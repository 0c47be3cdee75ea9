//! The source of fresh post identifiers.

use vstd::prelude::*;
use crate::tweet::TweetId;

verus! {

/// A counter that hands out each identifier once, in increasing order.
///
/// Its view is the identifier that it hands out next.
pub struct IdAllocator {
    next: TweetId,
}

impl View for IdAllocator {
    type V = TweetId;

    closed spec fn view(&self) -> TweetId {
        self.next
    }
}

impl IdAllocator {
    /// An allocator that has handed out nothing: it starts at 0.
    pub fn new() -> (allocator: Self)
        ensures
            allocator@ == 0,
    {
        IdAllocator { next: 0 }
    }

    /// An allocator that goes on from `next`, the counter of an earlier one.
    pub fn starting_at(next: TweetId) -> (allocator: Self)
        ensures
            allocator@ == next,
    {
        IdAllocator { next }
    }

    /// The identifier that the next successful allocation returns.
    pub fn next_tweet_id(&self) -> (next: TweetId)
        ensures
            next == self@,
    {
        self.next
    }

    /// Hands out the counter's value and advances the counter by one. When the
    /// counter cannot advance, nothing is handed out and it stays as it is.
    pub fn alloc_id(&mut self) -> (allocated: Option<TweetId>)
        ensures
            allocated is Some <==> old(self)@ < u128::MAX,
            match allocated {
                Some(id) => id == old(self)@ && final(self)@ == old(self)@ + 1,
                None => final(self)@ == old(self)@,
            },
    {
        let next: TweetId = self.next;
        match next.checked_add(1) {
            Some(new_next) => {
                self.next = new_next;
                Some(next)
            },
            None => None,
        }
    }
}

} // verus!
