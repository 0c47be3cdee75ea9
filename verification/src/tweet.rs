//! The post record and its mathematical model.

use vstd::prelude::*;

verus! {

/// Identifier of a post.
pub type TweetId = u128;

/// Largest number of bytes that the text of a post may hold.
pub const MAX_TEXT_LEN: u64 = 140;

/// A post: an original, a quote-repost or a comment.
///
/// `AccountId` names the author and `BlockNumber` is the ordinal of the clock
/// that stamps the post; both are carried as given.
#[derive(PartialEq, Eq, Debug)]
pub struct Tweet<AccountId, BlockNumber> {
    /// Identifier under which the post is stored.
    pub id: TweetId,
    /// Ordinal of the clock when the post was accepted.
    pub created_at: BlockNumber,
    /// Identifier of the quoted post, for a quote-repost.
    pub quote_of: Option<TweetId>,
    /// Text of the post.
    pub text: Vec<u8>,
    /// Identifiers of the comments on the post, oldest first.
    pub comments: Vec<TweetId>,
    /// Account that wrote the post.
    pub author: AccountId,
}

/// What a post is, with its sequences as mathematical sequences.
pub ghost struct TweetView<AccountId, BlockNumber> {
    pub id: TweetId,
    pub created_at: BlockNumber,
    pub quote_of: Option<TweetId>,
    pub text: Seq<u8>,
    pub comments: Seq<TweetId>,
    pub author: AccountId,
}

impl<AccountId, BlockNumber> View for Tweet<AccountId, BlockNumber> {
    type V = TweetView<AccountId, BlockNumber>;

    open spec fn view(&self) -> TweetView<AccountId, BlockNumber> {
        TweetView {
            id: self.id,
            created_at: self.created_at,
            quote_of: self.quote_of,
            text: self.text@,
            comments: self.comments@,
            author: self.author,
        }
    }
}

/// Whether a text is short enough for a post.
pub open spec fn text_fits(text: Seq<u8>) -> bool {
    text.len() <= MAX_TEXT_LEN
}

impl<AccountId, BlockNumber> TweetView<AccountId, BlockNumber> {
    /// The post as it is at creation: nobody has commented on it yet.
    pub open spec fn created(
        id: TweetId,
        created_at: BlockNumber,
        quote_of: Option<TweetId>,
        text: Seq<u8>,
        author: AccountId,
    ) -> Self {
        TweetView { id, created_at, quote_of, text, comments: Seq::empty(), author }
    }

    /// The post after the comment `comment` was added behind the comments it
    /// had; nothing else differs.
    pub open spec fn with_comment(self, comment: TweetId) -> Self {
        TweetView { comments: self.comments.push(comment), ..self }
    }
}

/// Tells whether `text` is short enough for a post.
pub fn check_text(text: &Vec<u8>) -> (fits: bool)
    ensures
        fits == text_fits(text@),
{
    text.len() as u64 <= MAX_TEXT_LEN
}

/// Whether a clone of a `T` is always the value that was cloned.
pub open spec fn clones_exactly<T: Clone>() -> bool {
    forall|original: T, copy: T| #[trigger] cloned::<T>(original, copy) ==> copy == original
}

impl<AccountId, BlockNumber> Tweet<AccountId, BlockNumber> {
    /// Builds a post without comments.
    pub fn new(
        id: TweetId,
        created_at: BlockNumber,
        quote_of: Option<TweetId>,
        text: Vec<u8>,
        author: AccountId,
    ) -> (tweet: Self)
        ensures
            tweet@ == TweetView::created(id, created_at, quote_of, text@, author),
    {
        Tweet { id, created_at, quote_of, text, comments: Vec::new(), author }
    }

    /// Adds `comment` behind the comments that the post has.
    pub fn push_comment(&mut self, comment: TweetId)
        ensures
            final(self)@ == old(self)@.with_comment(comment),
    {
        self.comments.push(comment);
    }
}

impl<AccountId: Clone, BlockNumber: Copy> Clone for Tweet<AccountId, BlockNumber> {
    /// A copy of the post: it has a clone of the author, and is the same post
    /// where accounts clone exactly.
    fn clone(&self) -> (copy: Self)
        ensures
            cloned(self.author, copy.author),
            copy@ == (TweetView { author: copy.author, ..self@ }),
    {
        Tweet {
            id: self.id,
            created_at: self.created_at,
            quote_of: self.quote_of,
            text: self.text.clone(),
            comments: self.comments.clone(),
            author: self.author.clone(),
        }
    }
}

} // verus!
