//! What holds of the operations, one by one and in sequence.

use vstd::prelude::*;
use crate::error::Error;
use crate::model::{LedgerView, Outcome};
use crate::tweet::{text_fits, TweetId, TweetView};

verus! {

/// A call of one of the three operations, with its arguments.
pub ghost enum Operation<AccountId, BlockNumber> {
    PostTweet { author: AccountId, now: BlockNumber, text: Seq<u8> },
    Retweet { author: AccountId, now: BlockNumber, target: TweetId, text: Seq<u8> },
    Comment { author: AccountId, now: BlockNumber, text: Seq<u8>, target: TweetId },
}

impl<AccountId, BlockNumber> Operation<AccountId, BlockNumber> {
    /// The account in whose name the operation is made.
    pub open spec fn author(self) -> AccountId {
        match self {
            Operation::PostTweet { author, .. } => author,
            Operation::Retweet { author, .. } => author,
            Operation::Comment { author, .. } => author,
        }
    }

    /// The text that the operation posts.
    pub open spec fn text(self) -> Seq<u8> {
        match self {
            Operation::PostTweet { text, .. } => text,
            Operation::Retweet { text, .. } => text,
            Operation::Comment { text, .. } => text,
        }
    }

    /// The post that the operation refers to, if it refers to one.
    pub open spec fn target(self) -> Option<TweetId> {
        match self {
            Operation::PostTweet { .. } => None,
            Operation::Retweet { target, .. } => Some(target),
            Operation::Comment { target, .. } => Some(target),
        }
    }
}

impl<AccountId, BlockNumber> LedgerView<AccountId, BlockNumber> {
    /// What the operation `op` makes of this state.
    pub open spec fn apply(self, op: Operation<AccountId, BlockNumber>) -> Outcome<
        AccountId,
        BlockNumber,
    > {
        match op {
            Operation::PostTweet { author, now, text } => self.post_tweet(author, now, text),
            Operation::Retweet { author, now, target, text } => self.retweet(
                author,
                now,
                target,
                text,
            ),
            Operation::Comment { author, now, text, target } => self.comment(
                author,
                now,
                text,
                target,
            ),
        }
    }

    /// The state after the operations `ops` were made one after another,
    /// starting in this state.
    pub open spec fn run(self, ops: Seq<Operation<AccountId, BlockNumber>>) -> Self
        decreases ops.len(),
    {
        if ops.len() == 0 {
            self
        } else {
            self.run(ops.drop_last()).apply(ops.last()).state
        }
    }

    /// The identifiers of the posts that the operations `ops` created, in the
    /// order of the calls, starting in this state.
    pub open spec fn allocated(self, ops: Seq<Operation<AccountId, BlockNumber>>) -> Seq<TweetId>
        decreases ops.len(),
    {
        if ops.len() == 0 {
            Seq::empty()
        } else {
            let earlier = self.allocated(ops.drop_last());
            match self.run(ops.drop_last()).apply(ops.last()).result {
                Ok(post) => earlier.push(post.id),
                Err(_) => earlier,
            }
        }
    }

    /// The identifiers of the posts that the operations among `ops` made in the
    /// name of `account` created, in the order of the calls, starting in this
    /// state.
    pub open spec fn allocated_for(
        self,
        ops: Seq<Operation<AccountId, BlockNumber>>,
        account: AccountId,
    ) -> Seq<TweetId>
        decreases ops.len(),
    {
        if ops.len() == 0 {
            Seq::empty()
        } else {
            let earlier = self.allocated_for(ops.drop_last(), account);
            match self.run(ops.drop_last()).apply(ops.last()).result {
                Ok(post) => if ops.last().author() == account {
                    earlier.push(post.id)
                } else {
                    earlier
                },
                Err(_) => earlier,
            }
        }
    }

    /// The number of operations among `ops` that were made in the name of
    /// `account` and accepted, starting in this state.
    pub open spec fn accepted_for(
        self,
        ops: Seq<Operation<AccountId, BlockNumber>>,
        account: AccountId,
    ) -> nat
        decreases ops.len(),
    {
        if ops.len() == 0 {
            0
        } else {
            let earlier = self.accepted_for(ops.drop_last(), account);
            if self.run(ops.drop_last()).apply(ops.last()).result is Ok && ops.last().author()
                == account {
                earlier + 1
            } else {
                earlier
            }
        }
    }
}

/// An original post with a text that is short enough is accepted while an
/// identifier is left. The post is stored under the counter's value with the
/// text, the author and the time given, quotes nothing and has no comments; it
/// is the last post listed for its author, and the counter advances by one.
pub proof fn lemma_short_post_is_accepted<AccountId, BlockNumber>(
    state: LedgerView<AccountId, BlockNumber>,
    author: AccountId,
    now: BlockNumber,
    text: Seq<u8>,
)
    requires
        text_fits(text),
        !state.exhausted(),
    ensures
        ({
            let outcome = state.post_tweet(author, now, text);
            let post = TweetView {
                id: state.next_id,
                created_at: now,
                quote_of: None,
                text,
                comments: Seq::empty(),
                author,
            };
            &&& outcome.result == Ok::<TweetView<AccountId, BlockNumber>, Error>(post)
            &&& outcome.state.posts.contains_key(post.id)
            &&& outcome.state.posts[post.id] == post
            &&& outcome.state.authored_by(author) == state.authored_by(author).push(post.id)
            &&& outcome.state.next_id == state.next_id + 1
        }),
{
}

/// Whatever the operation, a text that is too long has it rejected as too
/// long, and the state stays as it was.
pub proof fn lemma_long_text_is_rejected<AccountId, BlockNumber>(
    state: LedgerView<AccountId, BlockNumber>,
    op: Operation<AccountId, BlockNumber>,
)
    requires
        !text_fits(op.text()),
    ensures
        state.apply(op).result == Err::<TweetView<AccountId, BlockNumber>, Error>(
            Error::TweetTooLong,
        ),
        state.apply(op).state == state,
{
}

/// A quote-repost with a text that is short enough, while an identifier is
/// left, is accepted if and only if its target is stored. The post then
/// quotes the target.
pub proof fn lemma_retweet_needs_its_target<AccountId, BlockNumber>(
    state: LedgerView<AccountId, BlockNumber>,
    author: AccountId,
    now: BlockNumber,
    target: TweetId,
    text: Seq<u8>,
)
    requires
        text_fits(text),
        !state.exhausted(),
    ensures
        ({
            let outcome = state.retweet(author, now, target, text);
            &&& outcome.result is Ok <==> state.posts.contains_key(target)
            &&& outcome.result is Ok ==> {
                let post = outcome.result->Ok_0;
                &&& post.quote_of == Some(target)
                &&& post.id == state.next_id
                &&& outcome.state.posts.contains_key(post.id)
                &&& outcome.state.posts[post.id] == post
            }
            &&& outcome.result is Err ==> outcome.result == Err::<
                TweetView<AccountId, BlockNumber>,
                Error,
            >(Error::TweetNotFound) && outcome.state == state
        }),
{
}

/// A comment with a text that is short enough, while an identifier is left, is
/// accepted if and only if its target is stored. The target then has the
/// comment's identifier behind the comments that it had, and is otherwise as
/// it was.
pub proof fn lemma_comment_needs_its_target<AccountId, BlockNumber>(
    state: LedgerView<AccountId, BlockNumber>,
    author: AccountId,
    now: BlockNumber,
    text: Seq<u8>,
    target: TweetId,
)
    requires
        state.wf(),
        text_fits(text),
        !state.exhausted(),
    ensures
        ({
            let outcome = state.comment(author, now, text, target);
            &&& outcome.result is Ok <==> state.posts.contains_key(target)
            &&& outcome.result is Ok ==> {
                let post = outcome.result->Ok_0;
                let before = state.posts[target];
                let after = outcome.state.posts[target];
                &&& post.id == state.next_id
                &&& outcome.state.posts.contains_key(target)
                &&& after.comments == before.comments.push(post.id)
                &&& after.id == before.id
                &&& after.created_at == before.created_at
                &&& after.quote_of == before.quote_of
                &&& after.text == before.text
                &&& after.author == before.author
                &&& outcome.state.posts.contains_key(post.id)
                &&& outcome.state.posts[post.id] == post
            }
            &&& outcome.result is Err ==> outcome.result == Err::<
                TweetView<AccountId, BlockNumber>,
                Error,
            >(Error::TweetNotFound) && outcome.state == state
        }),
{
}

/// When no identifier is left, an operation that is not rejected for its text
/// or its target is rejected for want of an identifier, and the state stays as
/// it was.
pub proof fn lemma_exhausted_counter_rejects<AccountId, BlockNumber>(
    state: LedgerView<AccountId, BlockNumber>,
    op: Operation<AccountId, BlockNumber>,
)
    requires
        state.exhausted(),
        text_fits(op.text()),
        op.target() is Some ==> state.posts.contains_key(op.target()->0),
    ensures
        state.apply(op).result == Err::<TweetView<AccountId, BlockNumber>, Error>(
            Error::NoAvailableTweetId,
        ),
        state.apply(op).state == state,
{
}

/// A rejected operation leaves the state as it was; an accepted one gives its
/// post the counter's value and advances the counter by one.
pub proof fn lemma_apply_moves_counter<AccountId, BlockNumber>(
    state: LedgerView<AccountId, BlockNumber>,
    op: Operation<AccountId, BlockNumber>,
)
    ensures
        match state.apply(op).result {
            Ok(post) => post.id == state.next_id && state.apply(op).state.next_id == state.next_id
                + 1,
            Err(_) => state.apply(op).state == state,
        },
{
}

/// An operation keeps a well-formed state well formed.
pub proof fn lemma_apply_keeps_wf<AccountId, BlockNumber>(
    state: LedgerView<AccountId, BlockNumber>,
    op: Operation<AccountId, BlockNumber>,
)
    requires
        state.wf(),
    ensures
        state.apply(op).state.wf(),
{
}

/// An operation keeps the references between the entries of a state.
pub proof fn lemma_apply_keeps_consistent<AccountId, BlockNumber>(
    state: LedgerView<AccountId, BlockNumber>,
    op: Operation<AccountId, BlockNumber>,
)
    requires
        state.consistent(),
    ensures
        state.apply(op).state.consistent(),
{
    let after = state.apply(op).state;
    if state.apply(op).result is Ok {
        let new_id = state.next_id;
        let author = op.author();
        assert(after.authored_by(author)[state.authored_by(author).len() as int] == new_id);
        assert forall|id: TweetId| #[trigger] after.posts.contains_key(id) implies {
            &&& after.posts[id].quote_of matches Some(quoted) ==> quoted < id
                && after.posts.contains_key(quoted)
            &&& after.authored_by(after.posts[id].author).contains(id)
        } by {
            if id != new_id {
                assert(state.posts.contains_key(id));
                let owner = state.posts[id].author;
                let k = choose|k: int|
                    0 <= k < state.authored_by(owner).len() && state.authored_by(owner)[k] == id;
                assert(after.authored_by(owner)[k] == id);
            }
        }
        assert forall|id: TweetId, k: int|
            after.posts.contains_key(id) && 0 <= k < after.posts[id].comments.len() implies id
            < #[trigger] after.posts[id].comments[k] && after.posts.contains_key(
            after.posts[id].comments[k],
        ) by {
            if id != new_id && k < state.posts[id].comments.len() {
                assert(after.posts[id].comments[k] == state.posts[id].comments[k]);
            }
        }
        assert forall|account: AccountId, k: int|
            0 <= k < after.authored_by(account).len() implies after.posts.contains_key(
            #[trigger] after.authored_by(account)[k],
        ) && after.posts[after.authored_by(account)[k]].author == account by {
            if k < state.authored_by(account).len() {
                assert(after.authored_by(account)[k] == state.authored_by(account)[k]);
            }
        }
    }
}

/// No operation removes a post or changes one, but for a comment that is
/// accepted: it adds its identifier behind the comments of its target.
pub proof fn lemma_posts_persist<AccountId, BlockNumber>(
    state: LedgerView<AccountId, BlockNumber>,
    op: Operation<AccountId, BlockNumber>,
    id: TweetId,
)
    requires
        state.wf(),
        state.posts.contains_key(id),
    ensures
        state.apply(op).state.posts.contains_key(id),
        state.apply(op).state.posts[id] == if op is Comment && op.target() == Some(id)
            && state.apply(op).result is Ok {
            state.posts[id].with_comment(state.next_id)
        } else {
            state.posts[id]
        },
{
}

/// An operation lists the post it created behind the posts of its author, and
/// changes the list of no other account.
pub proof fn lemma_apply_lists_for_author<AccountId, BlockNumber>(
    state: LedgerView<AccountId, BlockNumber>,
    op: Operation<AccountId, BlockNumber>,
    account: AccountId,
)
    ensures
        state.apply(op).state.authored_by(account) == match state.apply(op).result {
            Ok(post) => if op.author() == account {
                state.authored_by(account).push(post.id)
            } else {
                state.authored_by(account)
            },
            Err(_) => state.authored_by(account),
        },
{
}

/// A sequence of operations keeps a well-formed state well formed.
pub proof fn lemma_run_keeps_wf<AccountId, BlockNumber>(
    start: LedgerView<AccountId, BlockNumber>,
    ops: Seq<Operation<AccountId, BlockNumber>>,
)
    requires
        start.wf(),
    ensures
        start.run(ops).wf(),
    decreases ops.len(),
{
    if ops.len() > 0 {
        lemma_run_keeps_wf(start, ops.drop_last());
        lemma_apply_keeps_wf(start.run(ops.drop_last()), ops.last());
    }
}

/// A sequence of operations keeps the references between the entries of a
/// state.
pub proof fn lemma_run_keeps_consistent<AccountId, BlockNumber>(
    start: LedgerView<AccountId, BlockNumber>,
    ops: Seq<Operation<AccountId, BlockNumber>>,
)
    requires
        start.consistent(),
    ensures
        start.run(ops).consistent(),
    decreases ops.len(),
{
    if ops.len() > 0 {
        lemma_run_keeps_consistent(start, ops.drop_last());
        lemma_apply_keeps_consistent(start.run(ops.drop_last()), ops.last());
    }
}

/// Whatever operations are made on a ledger that started empty, its state is
/// well formed and the references between its entries hold.
pub proof fn lemma_fresh_ledger_stays_consistent<AccountId, BlockNumber>(
    ops: Seq<Operation<AccountId, BlockNumber>>,
)
    ensures
        LedgerView::<AccountId, BlockNumber>::empty().run(ops).consistent(),
{
    lemma_run_keeps_consistent(LedgerView::<AccountId, BlockNumber>::empty(), ops);
}

/// The identifiers that a sequence of operations hands out are those from the
/// counter's value at the start up to its value at the end, one after another:
/// the k-th post created gets the k-th of them.
pub proof fn lemma_allocated_in_order<AccountId, BlockNumber>(
    start: LedgerView<AccountId, BlockNumber>,
    ops: Seq<Operation<AccountId, BlockNumber>>,
)
    ensures
        start.run(ops).next_id == start.next_id + start.allocated(ops).len(),
        forall|k: int|
            0 <= k < start.allocated(ops).len() ==> #[trigger] start.allocated(ops)[k]
                == start.next_id + k,
    decreases ops.len(),
{
    if ops.len() > 0 {
        lemma_allocated_in_order(start, ops.drop_last());
        lemma_apply_moves_counter(start.run(ops.drop_last()), ops.last());
    }
}

/// The identifiers that a sequence of operations hands out are strictly
/// increasing in the order of the calls, so no two of them are equal.
pub proof fn lemma_allocated_strictly_increasing<AccountId, BlockNumber>(
    start: LedgerView<AccountId, BlockNumber>,
    ops: Seq<Operation<AccountId, BlockNumber>>,
)
    ensures
        forall|i: int, j: int|
            0 <= i < j < start.allocated(ops).len() ==> #[trigger] start.allocated(ops)[i]
                < #[trigger] start.allocated(ops)[j],
        start.allocated(ops).no_duplicates(),
{
    lemma_allocated_in_order(start, ops);
}

/// After a sequence of operations the posts listed for an account are those
/// listed at the start and, behind them, the posts that its accepted
/// operations created, in the order of the calls: one for each of them.
pub proof fn lemma_index_follows_operations<AccountId, BlockNumber>(
    start: LedgerView<AccountId, BlockNumber>,
    ops: Seq<Operation<AccountId, BlockNumber>>,
    account: AccountId,
)
    ensures
        start.run(ops).authored_by(account) == start.authored_by(account) + start.allocated_for(
            ops,
            account,
        ),
        start.allocated_for(ops, account).len() == start.accepted_for(ops, account),
    decreases ops.len(),
{
    if ops.len() > 0 {
        lemma_index_follows_operations(start, ops.drop_last(), account);
        lemma_apply_lists_for_author(start.run(ops.drop_last()), ops.last(), account);
    }
    assert(start.run(ops).authored_by(account) =~= start.authored_by(account)
        + start.allocated_for(ops, account));
}

/// In a ledger that started empty, an account with N accepted operations has
/// exactly N posts listed: those that the operations created, in the order of
/// the calls.
pub proof fn lemma_index_of_fresh_ledger<AccountId, BlockNumber>(
    ops: Seq<Operation<AccountId, BlockNumber>>,
    account: AccountId,
)
    ensures
        ({
            let start = LedgerView::<AccountId, BlockNumber>::empty();
            &&& start.run(ops).authored_by(account) == start.allocated_for(ops, account)
            &&& start.run(ops).authored_by(account).len() == start.accepted_for(ops, account)
        }),
{
    let start = LedgerView::<AccountId, BlockNumber>::empty();
    lemma_index_follows_operations(start, ops, account);
    assert(start.authored_by(account) + start.allocated_for(ops, account) =~= start.allocated_for(
        ops,
        account,
    ));
}

} // verus!
