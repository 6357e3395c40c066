//! Platform-wide limits shared by the validation rules and the transition
//! engine.

use vstd::prelude::*;

verus! {

/// Smallest donation the platform accepts, in the platform's base currency
/// unit.
pub const MIN_DONATION_AMOUNT: u64 = 20_000_000;

/// Maximum UTF-8 byte length of a username.
pub const MAX_USERNAME_LENGTH: usize = 20;

/// Maximum UTF-8 byte length of a display name.
pub const MAX_DISPLAY_NAME_LENGTH: usize = 50;

/// Maximum UTF-8 byte length of a profile bio.
pub const MAX_BIO_LENGTH: usize = 160;

/// Maximum UTF-8 byte length of a post's content.
pub const MAX_POST_CONTENT_LENGTH: usize = 280;

/// Maximum UTF-8 byte length of a comment.
pub const MAX_COMMENT_LENGTH: usize = 140;

/// Maximum UTF-8 byte length of an image URL.
pub const MAX_IMAGE_URL_LENGTH: usize = 256;

} // verus!
