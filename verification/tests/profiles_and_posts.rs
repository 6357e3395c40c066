use solana_twitter::constants::{
    MAX_BIO_LENGTH, MAX_DISPLAY_NAME_LENGTH, MAX_IMAGE_URL_LENGTH, MAX_POST_CONTENT_LENGTH,
    MAX_USERNAME_LENGTH,
};
use solana_twitter::errors::ErrorCode;
use solana_twitter::ledger::Ledger;

fn bytes(s: &str) -> Vec<u8> {
    s.as_bytes().to_vec()
}

fn fresh() -> Ledger {
    let mut l = Ledger::new();
    assert_eq!(l.initialize(5, 999), Ok(()));
    l
}

fn with_profile(owner: u64) -> Ledger {
    let mut l = fresh();
    assert_eq!(
        l.create_profile(owner, bytes("alice"), bytes("Alice"), bytes("hi"), bytes(""), 100),
        Ok(())
    );
    l
}

#[test]
fn initialize_sets_state() {
    let mut l = Ledger::new();
    assert!(!l.state.initialized);
    assert_eq!(l.initialize(5, 999), Ok(()));
    assert!(l.state.initialized);
    assert_eq!(l.state.platform_fee, 5);
    assert_eq!(l.state.platform_address, 999);
    assert_eq!(l.state.user_count, 0);
    assert_eq!(l.state.post_count, 0);
    assert_eq!(l.state.comment_count, 0);
    assert_eq!(l.state.total_donations, 0);
}

#[test]
fn initialize_twice_rejected() {
    let mut l = fresh();
    assert_eq!(l.initialize(7, 1000), Err(ErrorCode::AlreadyInitialized));
    assert_eq!(l.state.platform_fee, 5);
    assert_eq!(l.state.platform_address, 999);
}

#[test]
fn create_profile_assigns_sequential_user_ids() {
    let mut l = fresh();
    assert_eq!(
        l.create_profile(1, bytes("alice"), bytes("Alice"), bytes(""), bytes(""), 100),
        Ok(())
    );
    assert_eq!(
        l.create_profile(2, bytes("bob"), bytes("Bob"), bytes(""), bytes(""), 101),
        Ok(())
    );
    assert_eq!(l.state.user_count, 2);
    assert_eq!(l.profiles.len(), 2);
    assert_eq!(l.profiles[0].owner, 1);
    assert_eq!(l.profiles[0].user_id, 1);
    assert_eq!(l.profiles[0].username, bytes("alice"));
    assert_eq!(l.profiles[0].followers_count, 0);
    assert_eq!(l.profiles[0].posts_count, 0);
    assert_eq!(l.profiles[0].created_at, 100);
    assert!(!l.profiles[0].is_verified);
    assert_eq!(l.profiles[1].user_id, 2);
}

#[test]
fn create_profile_twice_rejected_without_mutation() {
    let mut l = with_profile(1);
    let r = l.create_profile(1, bytes("other"), bytes(""), bytes(""), bytes(""), 200);
    assert_eq!(r, Err(ErrorCode::AlreadyInitialized));
    assert_eq!(l.state.user_count, 1);
    assert_eq!(l.profiles[0].username, bytes("alice"));
}

#[test]
fn create_profile_length_bounds() {
    let mut l = fresh();
    let long_name = vec![b'a'; MAX_USERNAME_LENGTH + 1];
    assert_eq!(
        l.create_profile(1, long_name, bytes(""), bytes(""), bytes(""), 0),
        Err(ErrorCode::UsernameTooLong)
    );
    let long_display = vec![b'b'; MAX_DISPLAY_NAME_LENGTH + 1];
    assert_eq!(
        l.create_profile(1, bytes("ok"), long_display, bytes(""), bytes(""), 0),
        Err(ErrorCode::DisplayNameTooLong)
    );
    let long_bio = vec![b'c'; MAX_BIO_LENGTH + 1];
    assert_eq!(
        l.create_profile(1, bytes("ok"), bytes("ok"), long_bio, bytes(""), 0),
        Err(ErrorCode::BioTooLong)
    );
    let long_url = vec![b'd'; MAX_IMAGE_URL_LENGTH + 1];
    assert_eq!(
        l.create_profile(1, bytes("ok"), bytes("ok"), bytes("ok"), long_url, 0),
        Err(ErrorCode::ImageUrlTooLong)
    );
    assert_eq!(l.state.user_count, 0);
    let max_name = vec![b'e'; MAX_USERNAME_LENGTH];
    assert_eq!(l.create_profile(1, max_name, bytes(""), bytes(""), bytes(""), 0), Ok(()));
}

#[test]
fn update_profile_replaces_only_supplied_fields() {
    let mut l = with_profile(1);
    assert_eq!(l.update_profile(1, Some(bytes("New Name")), None, Some(bytes("u"))), Ok(()));
    assert_eq!(l.profiles[0].display_name, bytes("New Name"));
    assert_eq!(l.profiles[0].bio, bytes("hi"));
    assert_eq!(l.profiles[0].profile_image_url, bytes("u"));
    assert_eq!(l.profiles[0].username, bytes("alice"));
}

#[test]
fn update_profile_atomic_on_failure() {
    let mut l = with_profile(1);
    let long_bio = vec![b'x'; MAX_BIO_LENGTH + 1];
    let r = l.update_profile(1, Some(bytes("Would Apply")), Some(long_bio), None);
    assert_eq!(r, Err(ErrorCode::BioTooLong));
    assert_eq!(l.profiles[0].display_name, bytes("Alice"));
    assert_eq!(l.profiles[0].bio, bytes("hi"));
}

#[test]
fn update_profile_without_profile_rejected() {
    let mut l = fresh();
    assert_eq!(l.update_profile(9, None, None, None), Err(ErrorCode::ProfileNotFound));
}

#[test]
fn create_post_assigns_next_id_and_counts() {
    let mut l = with_profile(1);
    let r = l.create_post(1, bytes("hello"), None, 150);
    assert_eq!(r, Ok(1));
    assert_eq!(l.state.post_count, 1);
    assert_eq!(l.posts.len(), 1);
    assert_eq!(l.posts[0].post_id, 1);
    assert_eq!(l.posts[0].author, 1);
    assert_eq!(l.posts[0].collaborator, None);
    assert!(!l.posts[0].is_collaboration);
    assert!(!l.posts[0].is_deleted);
    assert_eq!(l.posts[0].likes_count, 0);
    assert_eq!(l.posts[0].created_at, 150);
    assert_eq!(l.posts[0].updated_at, 150);
    assert_eq!(l.profiles[0].posts_count, 1);
    let r2 = l.create_post(1, bytes("second"), Some(bytes("img")), 151);
    assert_eq!(r2, Ok(2));
    assert_eq!(l.posts[1].image_url, Some(bytes("img")));
    assert_eq!(l.profiles[0].posts_count, 2);
}

#[test]
fn create_post_requires_profile_and_bounds() {
    let mut l = fresh();
    assert_eq!(l.create_post(1, bytes("x"), None, 0), Err(ErrorCode::ProfileNotFound));
    let mut l2 = with_profile(1);
    let long_content = vec![b'x'; MAX_POST_CONTENT_LENGTH + 1];
    assert_eq!(l2.create_post(1, long_content, None, 0), Err(ErrorCode::PostContentTooLong));
    let long_url = vec![b'u'; MAX_IMAGE_URL_LENGTH + 1];
    assert_eq!(
        l2.create_post(1, bytes("ok"), Some(long_url), 0),
        Err(ErrorCode::ImageUrlTooLong)
    );
    assert_eq!(l2.state.post_count, 0);
    let max_content = vec![b'y'; MAX_POST_CONTENT_LENGTH];
    assert_eq!(l2.create_post(1, max_content, None, 0), Ok(1));
}

#[test]
fn collaboration_post_marks_both_authors() {
    let mut l = with_profile(1);
    assert_eq!(
        l.create_profile(2, bytes("bob"), bytes("Bob"), bytes(""), bytes(""), 110),
        Ok(())
    );
    let r = l.create_collaboration_post(1, 2, bytes("joint"), None, 160);
    assert_eq!(r, Ok(1));
    assert_eq!(l.posts[0].author, 1);
    assert_eq!(l.posts[0].collaborator, Some(2));
    assert!(l.posts[0].is_collaboration);
    assert_eq!(l.profiles[0].posts_count, 1);
    assert_eq!(l.profiles[1].posts_count, 0);
}

#[test]
fn collaboration_post_missing_collaborator_rejected() {
    let mut l = with_profile(1);
    let r = l.create_collaboration_post(1, 5, bytes("joint"), None, 160);
    assert_eq!(r, Err(ErrorCode::CollaboratorNotFound));
    assert_eq!(l.state.post_count, 0);
}

#[test]
fn collaboration_with_self_rejected_without_mutation() {
    let mut l = with_profile(1);
    let r = l.create_collaboration_post(1, 1, bytes("solo"), None, 160);
    assert_eq!(r, Err(ErrorCode::CannotCollaborateWithSelf));
    assert_eq!(l.state.post_count, 0);
    assert_eq!(l.profiles[0].posts_count, 0);
}

#[test]
fn delete_post_tombstones_and_decrements_author() {
    let mut l = with_profile(1);
    assert_eq!(l.create_post(1, bytes("p"), None, 150), Ok(1));
    assert_eq!(l.delete_post(1, 1, 400), Ok(()));
    assert!(l.posts[0].is_deleted);
    assert_eq!(l.posts[0].updated_at, 400);
    assert_eq!(l.profiles[0].posts_count, 0);
    assert_eq!(l.state.post_count, 1);
}

#[test]
fn delete_post_twice_rejected() {
    let mut l = with_profile(1);
    assert_eq!(l.create_post(1, bytes("p"), None, 150), Ok(1));
    assert_eq!(l.delete_post(1, 1, 400), Ok(()));
    assert_eq!(l.delete_post(1, 1, 401), Err(ErrorCode::PostDeleted));
}

#[test]
fn delete_post_by_stranger_rejected() {
    let mut l = with_profile(1);
    assert_eq!(
        l.create_profile(2, bytes("bob"), bytes("Bob"), bytes(""), bytes(""), 110),
        Ok(())
    );
    assert_eq!(l.create_post(1, bytes("p"), None, 150), Ok(1));
    assert_eq!(l.delete_post(2, 1, 400), Err(ErrorCode::CannotDeleteOthersPost));
    assert!(!l.posts[0].is_deleted);
}

#[test]
fn delete_missing_post_rejected() {
    let mut l = with_profile(1);
    assert_eq!(l.delete_post(1, 3, 400), Err(ErrorCode::PostNotFound));
}

#[test]
fn collaborator_delete_keeps_own_counter() {
    let mut l = with_profile(1);
    assert_eq!(
        l.create_profile(2, bytes("bob"), bytes("Bob"), bytes(""), bytes(""), 110),
        Ok(())
    );
    assert_eq!(l.create_post(2, bytes("own"), None, 140), Ok(1));
    assert_eq!(l.create_collaboration_post(1, 2, bytes("joint"), None, 160), Ok(2));
    assert_eq!(l.profiles[0].posts_count, 1);
    assert_eq!(l.profiles[1].posts_count, 1);
    assert_eq!(l.delete_post(2, 2, 500), Ok(()));
    assert!(l.posts[1].is_deleted);
    assert_eq!(l.profiles[1].posts_count, 1);
    assert_eq!(l.profiles[0].posts_count, 1);
}
