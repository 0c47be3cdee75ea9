//! The account index: for each account, the posts that it wrote.

use vstd::prelude::*;
use std::collections::BTreeMap;
use vstd::laws_cmp::obeys_cmp;
use crate::tweet::TweetId;

verus! {

broadcast use vstd::std_specs::btree::group_btree_axioms;

/// The identifiers listed for `account` in `index`: none where the account is
/// not in it.
pub open spec fn ids_of<AccountId>(
    index: Map<AccountId, Seq<TweetId>>,
    account: AccountId,
) -> Seq<TweetId> {
    if index.contains_key(account) {
        index[account]
    } else {
        Seq::empty()
    }
}

/// A map from account to the identifiers of its posts, in the order in which
/// they were accepted.
///
/// Its view is that map, with an entry for each account that has a post.
/// Accounts are the keys of an ordered map: what is stated of the methods
/// that look an account up holds for account types whose comparisons obey the
/// laws of a total order, which is their `requires`.
pub struct AccountIndex<AccountId> {
    entries: BTreeMap<AccountId, Vec<TweetId>>,
}

impl<AccountId> View for AccountIndex<AccountId> {
    type V = Map<AccountId, Seq<TweetId>>;

    closed spec fn view(&self) -> Map<AccountId, Seq<TweetId>> {
        self.entries@.map_values(|ids: Vec<TweetId>| ids@)
    }
}

impl<AccountId: Ord> AccountIndex<AccountId> {
    /// An index without entries.
    pub fn new() -> (index: Self)
        ensures
            index@ == Map::<AccountId, Seq<TweetId>>::empty(),
    {
        let index = AccountIndex { entries: BTreeMap::new() };
        assert(index@ =~= Map::<AccountId, Seq<TweetId>>::empty());
        index
    }

    /// Adds `id` behind the identifiers listed for `account`, which gets an
    /// entry if it had none.
    pub fn append(&mut self, account: AccountId, id: TweetId)
        requires
            obeys_cmp::<AccountId>(),
        ensures
            final(self)@ == old(self)@.insert(account, ids_of(old(self)@, account).push(id)),
    {
        let mut ids = match self.entries.remove(&account) {
            Some(ids) => ids,
            None => Vec::new(),
        };
        ids.push(id);
        self.entries.insert(account, ids);
        assert(self@ =~= old(self)@.insert(account, ids_of(old(self)@, account).push(id)));
    }

    /// Lists `ids` for `account`, in place of what was listed for it.
    pub fn replace(&mut self, account: AccountId, ids: Vec<TweetId>)
        requires
            obeys_cmp::<AccountId>(),
        ensures
            final(self)@ == old(self)@.insert(account, ids@),
    {
        self.entries.insert(account, ids);
        assert(self@ =~= old(self)@.insert(account, ids@));
    }

    /// The identifiers listed for `account`, oldest first: none for an account
    /// that has no post.
    pub fn lookup(&self, account: &AccountId) -> (ids: Vec<TweetId>)
        requires
            obeys_cmp::<AccountId>(),
        ensures
            ids@ == ids_of(self@, *account),
    {
        match self.entries.get(account) {
            Some(ids) => ids.clone(),
            None => Vec::new(),
        }
    }
}

} // verus!
