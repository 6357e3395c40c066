use solana_twitter::constants::MAX_COMMENT_LENGTH;
use solana_twitter::errors::ErrorCode;
use solana_twitter::ledger::Ledger;

fn bytes(s: &str) -> Vec<u8> {
    s.as_bytes().to_vec()
}

fn two_users_one_post() -> Ledger {
    let mut l = Ledger::new();
    assert_eq!(l.initialize(5, 999), Ok(()));
    assert_eq!(
        l.create_profile(1, bytes("alice"), bytes("Alice"), bytes(""), bytes(""), 100),
        Ok(())
    );
    assert_eq!(
        l.create_profile(2, bytes("bob"), bytes("Bob"), bytes(""), bytes(""), 101),
        Ok(())
    );
    assert_eq!(l.create_post(1, bytes("hello"), None, 150), Ok(1));
    l
}

#[test]
fn create_comment_counts_both_sides() {
    let mut l = two_users_one_post();
    let r = l.create_comment(2, 1, bytes("nice"), 200);
    assert_eq!(r, Ok(1));
    assert_eq!(l.state.comment_count, 1);
    assert_eq!(l.comments.len(), 1);
    assert_eq!(l.comments[0].comment_id, 1);
    assert_eq!(l.comments[0].post_id, 1);
    assert_eq!(l.comments[0].author, 2);
    assert!(!l.comments[0].is_deleted);
    assert_eq!(l.posts[0].comments_count, 1);
}

#[test]
fn create_comment_on_missing_or_deleted_post_rejected() {
    let mut l = two_users_one_post();
    assert_eq!(l.create_comment(2, 9, bytes("x"), 200), Err(ErrorCode::PostNotFound));
    assert_eq!(l.delete_post(1, 1, 300), Ok(()));
    assert_eq!(l.create_comment(2, 1, bytes("x"), 301), Err(ErrorCode::PostDeleted));
    assert_eq!(l.state.comment_count, 0);
}

#[test]
fn create_comment_length_bound() {
    let mut l = two_users_one_post();
    let long = vec![b'z'; MAX_COMMENT_LENGTH + 1];
    assert_eq!(l.create_comment(2, 1, long, 200), Err(ErrorCode::CommentTooLong));
    let max = vec![b'z'; MAX_COMMENT_LENGTH];
    assert_eq!(l.create_comment(2, 1, max, 200), Ok(1));
}

#[test]
fn delete_comment_tombstones_and_decrements() {
    let mut l = two_users_one_post();
    assert_eq!(l.create_comment(2, 1, bytes("nice"), 200), Ok(1));
    assert_eq!(l.delete_comment(2, 1), Ok(()));
    assert!(l.comments[0].is_deleted);
    assert_eq!(l.posts[0].comments_count, 0);
    assert_eq!(l.state.comment_count, 1);
}

#[test]
fn delete_comment_wrong_caller_rejected() {
    let mut l = two_users_one_post();
    assert_eq!(l.create_comment(2, 1, bytes("nice"), 200), Ok(1));
    assert_eq!(l.delete_comment(1, 1), Err(ErrorCode::Unauthorized));
    assert!(!l.comments[0].is_deleted);
}

#[test]
fn delete_comment_twice_or_missing_rejected() {
    let mut l = two_users_one_post();
    assert_eq!(l.delete_comment(2, 1), Err(ErrorCode::CommentNotFound));
    assert_eq!(l.create_comment(2, 1, bytes("nice"), 200), Ok(1));
    assert_eq!(l.delete_comment(2, 1), Ok(()));
    assert_eq!(l.delete_comment(2, 1), Err(ErrorCode::CommentNotFound));
}

#[test]
fn follow_counts_both_profiles() {
    let mut l = two_users_one_post();
    assert_eq!(l.follow_user(1, 2, 210), Ok(()));
    assert_eq!(l.follows.len(), 1);
    assert_eq!(l.follows[0].follower, 1);
    assert_eq!(l.follows[0].following, 2);
    assert_eq!(l.follows[0].created_at, 210);
    assert_eq!(l.profiles[0].following_count, 1);
    assert_eq!(l.profiles[1].followers_count, 1);
    assert_eq!(l.profiles[0].followers_count, 0);
    assert_eq!(l.profiles[1].following_count, 0);
}

#[test]
fn follow_self_rejected_without_mutation() {
    let mut l = two_users_one_post();
    assert_eq!(l.follow_user(1, 1, 210), Err(ErrorCode::CannotFollowSelf));
    assert_eq!(l.follows.len(), 0);
    assert_eq!(l.profiles[0].following_count, 0);
    assert_eq!(l.profiles[0].followers_count, 0);
}

#[test]
fn follow_twice_rejected_without_counter_change() {
    let mut l = two_users_one_post();
    assert_eq!(l.follow_user(1, 2, 210), Ok(()));
    assert_eq!(l.follow_user(1, 2, 211), Err(ErrorCode::AlreadyFollowing));
    assert_eq!(l.follows.len(), 1);
    assert_eq!(l.profiles[0].following_count, 1);
    assert_eq!(l.profiles[1].followers_count, 1);
}

#[test]
fn follow_missing_target_rejected() {
    let mut l = two_users_one_post();
    assert_eq!(l.follow_user(1, 9, 210), Err(ErrorCode::ProfileNotFound));
}

#[test]
fn unfollow_restores_counts() {
    let mut l = two_users_one_post();
    assert_eq!(l.follow_user(1, 2, 210), Ok(()));
    assert_eq!(l.unfollow_user(1, 2), Ok(()));
    assert_eq!(l.follows.len(), 0);
    assert_eq!(l.profiles[0].following_count, 0);
    assert_eq!(l.profiles[1].followers_count, 0);
    assert_eq!(l.follow_user(1, 2, 220), Ok(()));
    assert_eq!(l.follows.len(), 1);
}

#[test]
fn unfollow_without_edge_rejected() {
    let mut l = two_users_one_post();
    assert_eq!(l.unfollow_user(1, 2), Err(ErrorCode::NotFollowing));
    assert_eq!(l.follow_user(2, 1, 210), Ok(()));
    assert_eq!(l.unfollow_user(1, 2), Err(ErrorCode::NotFollowing));
}

#[test]
fn like_then_unlike_restores_count() {
    let mut l = two_users_one_post();
    assert_eq!(l.like_post(2, 1, 230), Ok(()));
    assert_eq!(l.posts[0].likes_count, 1);
    assert_eq!(l.likes.len(), 1);
    assert_eq!(l.likes[0].user, 2);
    assert_eq!(l.likes[0].post_id, 1);
    assert_eq!(l.unlike_post(2, 1), Ok(()));
    assert_eq!(l.posts[0].likes_count, 0);
    assert_eq!(l.likes.len(), 0);
}

#[test]
fn like_twice_rejected_without_counter_change() {
    let mut l = two_users_one_post();
    assert_eq!(l.like_post(2, 1, 230), Ok(()));
    assert_eq!(l.like_post(2, 1, 231), Err(ErrorCode::AlreadyLiked));
    assert_eq!(l.posts[0].likes_count, 1);
    assert_eq!(l.likes.len(), 1);
}

#[test]
fn like_missing_or_deleted_post_rejected() {
    let mut l = two_users_one_post();
    assert_eq!(l.like_post(2, 9, 230), Err(ErrorCode::PostNotFound));
    assert_eq!(l.delete_post(1, 1, 300), Ok(()));
    assert_eq!(l.like_post(2, 1, 301), Err(ErrorCode::PostDeleted));
    assert_eq!(l.likes.len(), 0);
}

#[test]
fn unlike_without_edge_rejected() {
    let mut l = two_users_one_post();
    assert_eq!(l.unlike_post(2, 1), Err(ErrorCode::NotLiked));
}

#[test]
fn counters_track_created_records() {
    let mut l = two_users_one_post();
    assert_eq!(l.create_post(2, bytes("two"), None, 160), Ok(2));
    assert_eq!(l.create_comment(1, 2, bytes("c"), 170), Ok(1));
    assert_eq!(l.create_comment(2, 1, bytes("d"), 171), Ok(2));
    assert_eq!(l.state.user_count, l.profiles.len() as u64);
    assert_eq!(l.state.post_count, l.posts.len() as u64);
    assert_eq!(l.state.comment_count, l.comments.len() as u64);
    assert_eq!(l.delete_post(1, 1, 500), Ok(()));
    assert_eq!(l.delete_comment(1, 1), Ok(()));
    assert_eq!(l.state.post_count, l.posts.len() as u64);
    assert_eq!(l.state.comment_count, l.comments.len() as u64);
}
