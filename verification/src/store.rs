//! The post store: every accepted post under its identifier.

use vstd::prelude::*;
use std::collections::BTreeMap;
use crate::error::Error;
use crate::tweet::{Tweet, TweetId, TweetView};

verus! {

broadcast use vstd::std_specs::btree::group_btree_axioms;

/// A map from identifier to post.
///
/// Its view is the map from each identifier that it holds to the view of the
/// post stored there.
pub struct PostStore<AccountId, BlockNumber> {
    posts: BTreeMap<TweetId, Tweet<AccountId, BlockNumber>>,
}

impl<AccountId, BlockNumber> View for PostStore<AccountId, BlockNumber> {
    type V = Map<TweetId, TweetView<AccountId, BlockNumber>>;

    closed spec fn view(&self) -> Map<TweetId, TweetView<AccountId, BlockNumber>> {
        self.posts@.map_values(|post: Tweet<AccountId, BlockNumber>| post@)
    }
}

impl<AccountId, BlockNumber> PostStore<AccountId, BlockNumber> {
    /// The post stored under `id`, as the value that the store holds. It means
    /// something only where the store holds `id`.
    pub closed spec fn record(&self, id: TweetId) -> Tweet<AccountId, BlockNumber> {
        self.posts@[id]
    }

    /// The view of the store maps each identifier to the view of its record.
    pub proof fn lemma_view_of_record(&self, id: TweetId)
        requires
            self@.contains_key(id),
        ensures
            self@[id] == self.record(id)@,
    {
    }

    /// A store that holds nothing.
    pub fn new() -> (store: Self)
        ensures
            store@ == Map::<TweetId, TweetView<AccountId, BlockNumber>>::empty(),
    {
        let store = PostStore { posts: BTreeMap::new() };
        assert(store@ =~= Map::<TweetId, TweetView<AccountId, BlockNumber>>::empty());
        store
    }

    /// Stores `post` under `id`, in place of what was stored there, if anything.
    pub fn insert(&mut self, id: TweetId, post: Tweet<AccountId, BlockNumber>)
        ensures
            final(self)@ == old(self)@.insert(id, post@),
            final(self).record(id) == post,
    {
        self.posts.insert(id, post);
        assert(self@ =~= old(self)@.insert(id, post@));
    }

    /// Tells whether a post is stored under `id`.
    pub fn contains(&self, id: TweetId) -> (found: bool)
        ensures
            found == self@.contains_key(id),
    {
        self.posts.contains_key(&id)
    }

    /// The post stored under `id`, if there is one.
    pub fn get(&self, id: TweetId) -> (found: Option<&Tweet<AccountId, BlockNumber>>)
        ensures
            found is Some <==> self@.contains_key(id),
            found is Some ==> *found->0 == self.record(id) && found->0@ == self@[id],
    {
        self.posts.get(&id)
    }

    /// Replaces the post stored under `id` by what `change` makes of it. Where
    /// nothing is stored under `id`, `change` is not called, the store stays as
    /// it is and the answer is `TweetNotFound`.
    pub fn mutate_existing<F: FnOnce(Tweet<AccountId, BlockNumber>) -> Tweet<AccountId, BlockNumber>>(
        &mut self,
        id: TweetId,
        change: F,
    ) -> (outcome: Result<(), Error>)
        requires
            old(self)@.contains_key(id) ==> change.requires((old(self).record(id),)),
        ensures
            outcome is Ok <==> old(self)@.contains_key(id),
            outcome is Ok ==> change.ensures((old(self).record(id),), final(self).record(id))
                && final(self)@ == old(self)@.insert(id, final(self).record(id)@),
            outcome is Err ==> outcome == Err::<(), Error>(Error::TweetNotFound) && final(self)@
                == old(self)@,
    {
        match self.posts.remove(&id) {
            Some(post) => {
                let changed = change(post);
                self.posts.insert(id, changed);
                assert(self@ =~= old(self)@.insert(id, changed@));
                Ok(())
            },
            None => {
                assert(self@ =~= old(self)@);
                Err(Error::TweetNotFound)
            },
        }
    }
}

} // verus!
