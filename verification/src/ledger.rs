//! The ledger and its three operations.

use vstd::prelude::*;
use vstd::laws_cmp::obeys_cmp;
use crate::allocator::IdAllocator;
use crate::error::Error;
use crate::index::AccountIndex;
use crate::model::LedgerView;
use crate::store::PostStore;
use crate::tweet::{check_text, clones_exactly, text_fits, Tweet, TweetId, TweetView};

verus! {

/// The identifier counter, the post store and the account index, changed
/// together by each accepted operation and not at all by a rejected one.
pub struct Ledger<AccountId, BlockNumber> {
    allocator: IdAllocator,
    posts: PostStore<AccountId, BlockNumber>,
    accounts: AccountIndex<AccountId>,
}

impl<AccountId, BlockNumber> View for Ledger<AccountId, BlockNumber> {
    type V = LedgerView<AccountId, BlockNumber>;

    closed spec fn view(&self) -> LedgerView<AccountId, BlockNumber> {
        LedgerView { next_id: self.allocator@, posts: self.posts@, accounts: self.accounts@ }
    }
}

/// The result of an operation with the post, if any, as its view.
pub open spec fn result_view<AccountId, BlockNumber>(
    result: Result<Tweet<AccountId, BlockNumber>, Error>,
) -> Result<TweetView<AccountId, BlockNumber>, Error> {
    match result {
        Ok(post) => Ok(post@),
        Err(reason) => Err(reason),
    }
}

/// What a ledger asks of its account type: comparisons that obey the laws of a
/// total order, by which accounts are found again, and clones that are the
/// account cloned.
pub open spec fn accounts_behave<AccountId: Clone + Ord>() -> bool {
    &&& obeys_cmp::<AccountId>()
    &&& clones_exactly::<AccountId>()
}

impl<AccountId: Clone + Ord, BlockNumber: Copy> Ledger<AccountId, BlockNumber> {
    /// The state is well formed, and the account type behaves.
    pub open spec fn wf(&self) -> bool {
        &&& accounts_behave::<AccountId>()
        &&& self@.wf()
    }

    /// A ledger in which nothing was posted yet.
    pub fn new() -> (ledger: Self)
        requires
            accounts_behave::<AccountId>(),
        ensures
            ledger.wf(),
            ledger@ == LedgerView::<AccountId, BlockNumber>::empty(),
    {
        Ledger { allocator: IdAllocator::new(), posts: PostStore::new(), accounts: AccountIndex::new() }
    }

    /// A ledger that holds no post yet and whose counter goes on from `next`:
    /// the start for taking up a state that was kept elsewhere.
    pub fn starting_at(next: TweetId) -> (ledger: Self)
        requires
            accounts_behave::<AccountId>(),
        ensures
            ledger.wf(),
            ledger@ == (LedgerView::<AccountId, BlockNumber> {
                next_id: next,
                ..LedgerView::empty()
            }),
    {
        Ledger {
            allocator: IdAllocator::starting_at(next),
            posts: PostStore::new(),
            accounts: AccountIndex::new(),
        }
    }

    /// Takes up `post`, a post that was accepted earlier, under its identifier.
    /// It is taken up if and only if its identifier was handed out already and
    /// its text is short enough; otherwise the ledger stays as it was.
    pub fn restore_post(&mut self, post: Tweet<AccountId, BlockNumber>) -> (restored: bool)
        requires
            old(self).wf(),
        ensures
            final(self).wf(),
            restored <==> post.id < old(self)@.next_id && text_fits(post.text@),
            final(self)@ == if restored {
                LedgerView { posts: old(self)@.posts.insert(post.id, post@), ..old(self)@ }
            } else {
                old(self)@
            },
    {
        if post.id < self.allocator.next_tweet_id() && check_text(&post.text) {
            self.posts.insert(post.id, post);
            true
        } else {
            false
        }
    }

    /// Takes up `ids` as the posts of `account`, in place of what was listed
    /// for it.
    pub fn restore_account(&mut self, account: AccountId, ids: Vec<TweetId>)
        requires
            old(self).wf(),
        ensures
            final(self).wf(),
            final(self)@ == (LedgerView {
                accounts: old(self)@.accounts.insert(account, ids@),
                ..old(self)@
            }),
    {
        self.accounts.replace(account, ids);
    }

    /// The identifier that the next accepted operation gives to its post.
    pub fn next_tweet_id(&self) -> (next: TweetId)
        ensures
            next == self@.next_id,
    {
        self.allocator.next_tweet_id()
    }

    /// The post stored under `id`, if there is one.
    pub fn tweets(&self, id: TweetId) -> (found: Option<&Tweet<AccountId, BlockNumber>>)
        ensures
            found is Some <==> self@.posts.contains_key(id),
            found is Some ==> found->0@ == self@.posts[id],
    {
        self.posts.get(id)
    }

    /// The identifiers of the posts of `account`, oldest first.
    pub fn accounts(&self, account: &AccountId) -> (ids: Vec<TweetId>)
        requires
            self.wf(),
        ensures
            ids@ == self@.authored_by(*account),
    {
        self.accounts.lookup(account)
    }

    /// Stores `post` under the next identifier and lists it for its author.
    fn record_post(&mut self, post: &Tweet<AccountId, BlockNumber>)
        requires
            accounts_behave::<AccountId>(),
        ensures
            final(self)@.posts == old(self)@.posts.insert(post.id, post@),
            final(self)@.accounts == old(self)@.accounts.insert(
                post.author,
                old(self)@.authored_by(post.author).push(post.id),
            ),
            final(self)@.next_id == old(self)@.next_id,
    {
        let author = post.author.clone();
        let stored = post.clone();
        assert(cloned(post.author, author) && cloned(post.author, stored.author));
        self.accounts.append(author, post.id);
        self.posts.insert(post.id, stored);
    }

    /// Posts `text` as an original post by `author`, stamped `now`, and returns
    /// the post as it was stored.
    pub fn post_tweet(&mut self, author: AccountId, now: BlockNumber, text: Vec<u8>) -> (outcome:
        Result<Tweet<AccountId, BlockNumber>, Error>)
        requires
            old(self).wf(),
        ensures
            final(self).wf(),
            final(self)@ == old(self)@.post_tweet(author, now, text@).state,
            result_view(outcome) == old(self)@.post_tweet(author, now, text@).result,
    {
        if !check_text(&text) {
            return Err(Error::TweetTooLong);
        }
        let id = match self.allocator.alloc_id() {
            Some(id) => id,
            None => {
                return Err(Error::NoAvailableTweetId);
            },
        };
        let post = Tweet::new(id, now, None, text, author);
        self.record_post(&post);
        Ok(post)
    }

    /// Posts `text` as a quote-repost of the post `target` by `author`, stamped
    /// `now`, and returns the post as it was stored.
    pub fn retweet(
        &mut self,
        author: AccountId,
        now: BlockNumber,
        target: TweetId,
        text: Vec<u8>,
    ) -> (outcome: Result<Tweet<AccountId, BlockNumber>, Error>)
        requires
            old(self).wf(),
        ensures
            final(self).wf(),
            final(self)@ == old(self)@.retweet(author, now, target, text@).state,
            result_view(outcome) == old(self)@.retweet(author, now, target, text@).result,
    {
        if !check_text(&text) {
            return Err(Error::TweetTooLong);
        }
        if !self.posts.contains(target) {
            return Err(Error::TweetNotFound);
        }
        let id = match self.allocator.alloc_id() {
            Some(id) => id,
            None => {
                return Err(Error::NoAvailableTweetId);
            },
        };
        let post = Tweet::new(id, now, Some(target), text, author);
        self.record_post(&post);
        Ok(post)
    }

    /// Posts `text` as a comment on the post `target` by `author`, stamped
    /// `now`, and returns the comment as it was stored.
    pub fn comment(
        &mut self,
        author: AccountId,
        now: BlockNumber,
        text: Vec<u8>,
        target: TweetId,
    ) -> (outcome: Result<Tweet<AccountId, BlockNumber>, Error>)
        requires
            old(self).wf(),
        ensures
            final(self).wf(),
            final(self)@ == old(self)@.comment(author, now, text@, target).state,
            result_view(outcome) == old(self)@.comment(author, now, text@, target).result,
    {
        if !check_text(&text) {
            return Err(Error::TweetTooLong);
        }
        if !self.posts.contains(target) {
            return Err(Error::TweetNotFound);
        }
        let id = match self.allocator.alloc_id() {
            Some(id) => id,
            None => {
                return Err(Error::NoAvailableTweetId);
            },
        };
        let post = Tweet::new(id, now, None, text, author);
        proof {
            self.posts.lemma_view_of_record(target);
        }
        let add_comment = |commented: Tweet<AccountId, BlockNumber>| -> (changed: Tweet<
            AccountId,
            BlockNumber,
        >)
            ensures
                changed@ == commented@.with_comment(id),
            {
                let mut changed = commented;
                changed.push_comment(id);
                changed
            };
        match self.posts.mutate_existing(target, add_comment) {
            Ok(()) => {},
            Err(reason) => {
                return Err(reason);
            },
        }
        self.record_post(&post);
        Ok(post)
    }
}

} // verus!
