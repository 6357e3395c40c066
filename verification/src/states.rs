//! The fixed-shape record types of the platform.
//!
//! Identities are plain `u64` keys handed in by the host's caller
//! authentication; text fields are UTF-8 byte strings, capped by the bounds
//! in `constants`.

use vstd::prelude::*;
use crate::addressing::Address;
use crate::constants::{
    MAX_BIO_LENGTH, MAX_COMMENT_LENGTH, MAX_DISPLAY_NAME_LENGTH, MAX_IMAGE_URL_LENGTH,
    MAX_POST_CONTENT_LENGTH, MAX_USERNAME_LENGTH,
};

verus! {

/// The singleton counters record, created exactly once per deployment and
/// mutated by nearly every transition.
#[derive(Clone, Copy, Debug, PartialEq, Eq, Structural)]
pub struct ProgramState {
    pub initialized: bool,
    pub user_count: u64,
    pub post_count: u64,
    pub comment_count: u64,
    /// Percentage fee taken out of every donation.
    pub platform_fee: u64,
    pub platform_address: u64,
    pub total_donations: u64,
}

/// One profile per owner identity.
#[derive(Debug)]
pub struct UserProfile {
    pub owner: u64,
    pub user_id: u64,
    pub username: Vec<u8>,
    pub display_name: Vec<u8>,
    pub bio: Vec<u8>,
    pub profile_image_url: Vec<u8>,
    pub followers_count: u64,
    pub following_count: u64,
    pub posts_count: u64,
    pub created_at: u64,
    pub total_donations_received: u64,
    pub is_verified: bool,
}

impl UserProfile {
    /// Every text field stays within its bound.
    pub open spec fn wf(self) -> bool {
        &&& self.username@.len() <= MAX_USERNAME_LENGTH
        &&& self.display_name@.len() <= MAX_DISPLAY_NAME_LENGTH
        &&& self.bio@.len() <= MAX_BIO_LENGTH
        &&& self.profile_image_url@.len() <= MAX_IMAGE_URL_LENGTH
    }
}

/// A post, soft-deleted and never physically removed, so its id stays
/// referable by comments and likes.
#[derive(Debug)]
pub struct Post {
    pub post_id: u64,
    pub author: u64,
    /// Second author of a collaboration post.
    pub collaborator: Option<u64>,
    pub content: Vec<u8>,
    pub image_url: Option<Vec<u8>>,
    pub likes_count: u64,
    pub comments_count: u64,
    pub created_at: u64,
    pub updated_at: u64,
    pub is_deleted: bool,
    pub is_collaboration: bool,
}

/// Whether an optional image URL stays within its bound.
pub open spec fn image_url_ok(url: Option<Vec<u8>>) -> bool {
    match url {
        Some(u) => u@.len() <= MAX_IMAGE_URL_LENGTH,
        None => true,
    }
}

impl Post {
    pub open spec fn wf(self) -> bool {
        &&& self.content@.len() <= MAX_POST_CONTENT_LENGTH
        &&& image_url_ok(self.image_url)
        &&& self.is_collaboration == self.collaborator is Some
    }
}

/// A comment under a post, soft-deleted like its parent.
#[derive(Debug)]
pub struct Comment {
    pub comment_id: u64,
    pub post_id: u64,
    pub author: u64,
    pub content: Vec<u8>,
    pub created_at: u64,
    pub is_deleted: bool,
}

impl Comment {
    pub open spec fn wf(self) -> bool {
        self.content@.len() <= MAX_COMMENT_LENGTH
    }
}

/// A follow relationship; its existence is the relationship, it is
/// physically removed on unfollow.
#[derive(Clone, Copy, Debug, PartialEq, Eq, Structural)]
pub struct Follow {
    pub follower: u64,
    pub following: u64,
    pub created_at: u64,
}

/// A like edge; physically removed on unlike.
#[derive(Clone, Copy, Debug, PartialEq, Eq, Structural)]
pub struct Like {
    pub user: u64,
    pub post_id: u64,
    pub created_at: u64,
}

/// The latest donation for a donor/recipient pair; a new donation for the
/// same pair overwrites the previous log entry.
#[derive(Clone, Copy, Debug, PartialEq, Eq, Structural)]
pub struct Donation {
    pub donor: u64,
    pub recipient: u64,
    pub amount: u64,
    pub timestamp: u64,
    /// The address the record lives at, kept as its transaction reference.
    pub transaction_id: Address,
}

/// A caller-controlled funding balance, debited by donations.
#[derive(Clone, Copy, Debug, PartialEq, Eq, Structural)]
pub struct Balance {
    pub owner: u64,
    pub amount: u64,
}

} // verus!
