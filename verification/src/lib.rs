//! A ledger of short authored posts: originals, quote-reposts and threaded
//! comments, each stored under a unique, monotonically allocated identifier and
//! indexed by the account that wrote it.

pub mod allocator;
pub mod error;
pub mod index;
pub mod ledger;
pub mod lemmas;
pub mod model;
pub mod store;
pub mod tweet;

pub use crate::allocator::IdAllocator;
pub use crate::error::Error;
pub use crate::index::{ids_of, AccountIndex};
pub use crate::ledger::{accounts_behave, result_view, Ledger};
pub use crate::lemmas::Operation;
pub use crate::model::{LedgerView, Outcome};
pub use crate::store::PostStore;
pub use crate::tweet::{
    check_text, clones_exactly, text_fits, Tweet, TweetId, TweetView, MAX_TEXT_LEN,
};
