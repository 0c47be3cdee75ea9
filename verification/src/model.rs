//! The ledger as a mathematical value, and what each operation makes of it.

use vstd::prelude::*;
use crate::error::Error;
use crate::index::ids_of;
use crate::tweet::{text_fits, TweetId, TweetView};

verus! {

/// The state of a ledger: the identifier that is handed out next, the posts by
/// identifier, and for each account the identifiers of its posts, oldest
/// first.
#[verifier::reject_recursive_types(AccountId)]
pub ghost struct LedgerView<AccountId, BlockNumber> {
    pub next_id: TweetId,
    pub posts: Map<TweetId, TweetView<AccountId, BlockNumber>>,
    pub accounts: Map<AccountId, Seq<TweetId>>,
}

/// What an operation leaves behind: the state after it, and the post that it
/// created or the reason for which it was rejected.
#[verifier::reject_recursive_types(AccountId)]
pub ghost struct Outcome<AccountId, BlockNumber> {
    pub state: LedgerView<AccountId, BlockNumber>,
    pub result: Result<TweetView<AccountId, BlockNumber>, Error>,
}

impl<AccountId, BlockNumber> LedgerView<AccountId, BlockNumber> {
    /// The state in which nothing was posted yet.
    pub open spec fn empty() -> Self {
        LedgerView { next_id: 0, posts: Map::empty(), accounts: Map::empty() }
    }

    /// Every post is stored under its own identifier, which was handed out
    /// already, and its text is short enough.
    pub open spec fn wf(self) -> bool {
        forall|id: TweetId| #[trigger]
            self.posts.contains_key(id) ==> {
                &&& id < self.next_id
                &&& self.posts[id].id == id
                &&& text_fits(self.posts[id].text)
            }
    }

    /// The references between the entries hold: a quoted post and each comment
    /// of a post are stored, the quoted post older and the comments younger
    /// than the post; each post is listed for its author; and each identifier
    /// listed for an account is that of a stored post of that account.
    pub open spec fn consistent(self) -> bool {
        &&& self.wf()
        &&& forall|id: TweetId| #[trigger]
            self.posts.contains_key(id) ==> {
                &&& self.posts[id].quote_of matches Some(quoted) ==> quoted < id
                    && self.posts.contains_key(quoted)
                &&& self.authored_by(self.posts[id].author).contains(id)
            }
        &&& forall|id: TweetId, k: int|
            self.posts.contains_key(id) && 0 <= k < self.posts[id].comments.len() ==> id
                < #[trigger] self.posts[id].comments[k] && self.posts.contains_key(
                self.posts[id].comments[k],
            )
        &&& forall|account: AccountId, k: int|
            0 <= k < self.authored_by(account).len() ==> self.posts.contains_key(
                #[trigger] self.authored_by(account)[k],
            ) && self.posts[self.authored_by(account)[k]].author == account
    }

    /// No identifier is left to hand out.
    pub open spec fn exhausted(self) -> bool {
        self.next_id == u128::MAX
    }

    /// The identifiers of the posts of `account`, oldest first.
    pub open spec fn authored_by(self, account: AccountId) -> Seq<TweetId> {
        ids_of(self.accounts, account)
    }

    /// The state after `post` was stored under its identifier and listed behind
    /// the other posts of its author, and the counter advanced by one.
    pub open spec fn with_post(self, post: TweetView<AccountId, BlockNumber>) -> Self
        recommends
            !self.exhausted(),
    {
        LedgerView {
            next_id: (self.next_id + 1) as TweetId,
            posts: self.posts.insert(post.id, post),
            accounts: self.accounts.insert(
                post.author,
                self.authored_by(post.author).push(post.id),
            ),
        }
    }

    /// The state after `comment` was added behind the comments of the post
    /// `target`.
    pub open spec fn commented(self, target: TweetId, comment: TweetId) -> Self
        recommends
            self.posts.contains_key(target),
    {
        LedgerView {
            posts: self.posts.insert(target, self.posts[target].with_comment(comment)),
            ..self
        }
    }

    /// An operation that was rejected for `reason`: the state is as before.
    pub open spec fn rejected(self, reason: Error) -> Outcome<AccountId, BlockNumber> {
        Outcome { state: self, result: Err(reason) }
    }

    /// An operation that was accepted and created `post`: the state holds it.
    pub open spec fn accepted(self, post: TweetView<AccountId, BlockNumber>) -> Outcome<
        AccountId,
        BlockNumber,
    >
        recommends
            !self.exhausted(),
    {
        Outcome { state: self.with_post(post), result: Ok(post) }
    }

    /// An original post by `author` at `now`. A text that is too long is
    /// rejected; then a counter that cannot advance. Otherwise the post gets
    /// the next identifier and is accepted.
    pub open spec fn post_tweet(self, author: AccountId, now: BlockNumber, text: Seq<u8>) -> Outcome<
        AccountId,
        BlockNumber,
    > {
        let post = TweetView::created(self.next_id, now, None, text, author);
        if !text_fits(text) {
            self.rejected(Error::TweetTooLong)
        } else if self.exhausted() {
            self.rejected(Error::NoAvailableTweetId)
        } else {
            self.accepted(post)
        }
    }

    /// A quote-repost of `target` by `author` at `now`. A text that is too long
    /// is rejected; then a target that is not stored; then a counter that
    /// cannot advance. Otherwise the post gets the next identifier, refers to
    /// `target` and is accepted.
    pub open spec fn retweet(
        self,
        author: AccountId,
        now: BlockNumber,
        target: TweetId,
        text: Seq<u8>,
    ) -> Outcome<AccountId, BlockNumber> {
        let post = TweetView::created(self.next_id, now, Some(target), text, author);
        if !text_fits(text) {
            self.rejected(Error::TweetTooLong)
        } else if !self.posts.contains_key(target) {
            self.rejected(Error::TweetNotFound)
        } else if self.exhausted() {
            self.rejected(Error::NoAvailableTweetId)
        } else {
            self.accepted(post)
        }
    }

    /// A comment on `target` by `author` at `now`. A text that is too long is
    /// rejected; then a target that is not stored; then a counter that cannot
    /// advance. Otherwise the comment gets the next identifier, which is added
    /// behind the comments of `target`, and is accepted as a post of its own.
    pub open spec fn comment(
        self,
        author: AccountId,
        now: BlockNumber,
        text: Seq<u8>,
        target: TweetId,
    ) -> Outcome<AccountId, BlockNumber> {
        let post = TweetView::created(self.next_id, now, None, text, author);
        if !text_fits(text) {
            self.rejected(Error::TweetTooLong)
        } else if !self.posts.contains_key(target) {
            self.rejected(Error::TweetNotFound)
        } else if self.exhausted() {
            self.rejected(Error::NoAvailableTweetId)
        } else {
            self.commented(target, post.id).accepted(post)
        }
    }
}

} // verus!
