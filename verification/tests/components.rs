use twitter::{check_text, AccountIndex, Error, IdAllocator, PostStore, Tweet, TweetId, MAX_TEXT_LEN};

fn post(id: TweetId, text: &str) -> Tweet<u64, u32> {
    Tweet::new(id, 1, None, text.as_bytes().to_vec(), 42)
}

#[test]
fn text_bound_is_140_bytes() {
    assert_eq!(MAX_TEXT_LEN, 140);
    assert!(check_text(&vec![]));
    assert!(check_text(&vec![7u8; 139]));
    assert!(check_text(&vec![7u8; 140]));
    assert!(!check_text(&vec![7u8; 141]));
    assert!(!check_text(&vec![7u8; 1000]));
}

#[test]
fn new_tweet_has_no_comments() {
    let tweet: Tweet<u64, u32> = Tweet::new(5, 77, Some(2), vec![1, 2, 3], 9);
    assert_eq!(
        tweet,
        Tweet { id: 5, created_at: 77, quote_of: Some(2), text: vec![1, 2, 3], comments: vec![], author: 9 }
    );
}

#[test]
fn push_comment_appends_at_the_end() {
    let mut tweet: Tweet<u64, u32> = Tweet::new(5, 77, Some(2), vec![1, 2, 3], 9);
    tweet.push_comment(8);
    tweet.push_comment(6);
    tweet.push_comment(8);
    assert_eq!(tweet.comments, vec![8, 6, 8]);
    assert_eq!(tweet.id, 5);
    assert_eq!(tweet.created_at, 77);
    assert_eq!(tweet.quote_of, Some(2));
    assert_eq!(tweet.text, vec![1, 2, 3]);
    assert_eq!(tweet.author, 9);
}

#[test]
fn clone_keeps_every_field() {
    let mut tweet: Tweet<u64, u32> = Tweet::new(5, 77, Some(2), vec![1, 2, 3], 9);
    tweet.push_comment(11);
    let copy = tweet.clone();
    assert_eq!(copy, tweet);
    assert_eq!(copy.comments, vec![11]);
}

#[test]
fn allocator_starts_at_zero() {
    let mut allocator = IdAllocator::new();
    assert_eq!(allocator.next_tweet_id(), 0);
    assert_eq!(allocator.alloc_id(), Some(0));
    assert_eq!(allocator.alloc_id(), Some(1));
    assert_eq!(allocator.alloc_id(), Some(2));
    assert_eq!(allocator.next_tweet_id(), 3);
}

#[test]
fn allocator_goes_on_from_a_given_value() {
    let mut allocator = IdAllocator::starting_at(1000);
    assert_eq!(allocator.alloc_id(), Some(1000));
    assert_eq!(allocator.next_tweet_id(), 1001);
}

#[test]
fn allocator_stops_at_the_end_of_its_range() {
    let mut allocator = IdAllocator::starting_at(u128::MAX - 1);
    assert_eq!(allocator.alloc_id(), Some(u128::MAX - 1));
    assert_eq!(allocator.next_tweet_id(), u128::MAX);
    assert_eq!(allocator.alloc_id(), None);
    assert_eq!(allocator.next_tweet_id(), u128::MAX);
    assert_eq!(allocator.alloc_id(), None);
    assert_eq!(allocator.next_tweet_id(), u128::MAX);
}

#[test]
fn store_returns_what_was_inserted() {
    let mut store: PostStore<u64, u32> = PostStore::new();
    assert!(!store.contains(3));
    assert_eq!(store.get(3), None);
    store.insert(3, post(3, "three"));
    store.insert(8, post(8, "eight"));
    assert!(store.contains(3));
    assert!(store.contains(8));
    assert!(!store.contains(4));
    assert_eq!(store.get(3), Some(&post(3, "three")));
    assert_eq!(store.get(8), Some(&post(8, "eight")));
    assert_eq!(store.get(4), None);
}

#[test]
fn store_insert_overwrites() {
    let mut store: PostStore<u64, u32> = PostStore::new();
    store.insert(3, post(3, "first"));
    store.insert(3, post(3, "second"));
    assert_eq!(store.get(3), Some(&post(3, "second")));
}

#[test]
fn mutate_existing_changes_the_stored_post() {
    let mut store: PostStore<u64, u32> = PostStore::new();
    store.insert(3, post(3, "three"));
    store.insert(8, post(8, "eight"));
    let outcome = store.mutate_existing(3, |mut stored| {
        stored.push_comment(9);
        stored
    });
    assert_eq!(outcome, Ok(()));
    let mut expected = post(3, "three");
    expected.push_comment(9);
    assert_eq!(store.get(3), Some(&expected));
    assert_eq!(store.get(8), Some(&post(8, "eight")));
}

#[test]
fn mutate_existing_fails_on_a_missing_post() {
    let mut store: PostStore<u64, u32> = PostStore::new();
    store.insert(3, post(3, "three"));
    let mut called = false;
    let outcome = store.mutate_existing(4, |stored| {
        called = true;
        stored
    });
    assert_eq!(outcome, Err(Error::TweetNotFound));
    assert!(!called);
    assert_eq!(store.get(4), None);
    assert_eq!(store.get(3), Some(&post(3, "three")));
}

#[test]
fn index_is_empty_for_an_unknown_account() {
    let index: AccountIndex<u64> = AccountIndex::new();
    assert_eq!(index.lookup(&1), Vec::<TweetId>::new());
}

#[test]
fn index_appends_in_order() {
    let mut index: AccountIndex<u64> = AccountIndex::new();
    index.append(1, 10);
    index.append(2, 11);
    index.append(1, 5);
    index.append(1, 10);
    assert_eq!(index.lookup(&1), vec![10, 5, 10]);
    assert_eq!(index.lookup(&2), vec![11]);
    assert_eq!(index.lookup(&3), Vec::<TweetId>::new());
}

#[test]
fn index_replace_sets_the_list() {
    let mut index: AccountIndex<u64> = AccountIndex::new();
    index.append(1, 10);
    index.replace(1, vec![4, 5]);
    index.append(1, 6);
    assert_eq!(index.lookup(&1), vec![4, 5, 6]);
}

#[test]
fn errors_are_told_apart() {
    assert_ne!(Error::TweetNotFound, Error::TweetTooLong);
    assert_ne!(Error::TweetTooLong, Error::NoAvailableTweetId);
    assert_ne!(Error::TweetNotFound, Error::NoAvailableTweetId);
    assert_eq!(format!("{:?}", Error::TweetTooLong), "TweetTooLong");
}
