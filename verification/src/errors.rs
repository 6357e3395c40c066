//! The closed set of failure kinds surfaced by the transition engine.

use vstd::prelude::*;

verus! {

/// One kind per violated invariant or precondition. Every failing transition
/// returns exactly one of these and leaves the ledger untouched.
#[derive(Clone, Copy, Debug, PartialEq, Eq, Structural)]
pub enum ErrorCode {
    AlreadyInitialized,
    UsernameTooLong,
    DisplayNameTooLong,
    BioTooLong,
    PostContentTooLong,
    CommentTooLong,
    ImageUrlTooLong,
    UsernameAlreadyExists,
    ProfileNotFound,
    PostNotFound,
    CommentNotFound,
    CannotFollowSelf,
    AlreadyFollowing,
    NotFollowing,
    AlreadyLiked,
    NotLiked,
    Unauthorized,
    InvalidDonationAmount,
    CannotDonateToSelf,
    CollaboratorNotFound,
    PostDeleted,
    CannotDeleteOthersPost,
    CannotCollaborateWithSelf,
}

/// A donation aborts either on a domain rule or because the funding
/// transfer itself failed; the two are kept apart, as the transfer
/// primitive's failures are infrastructure, not domain violations.
#[derive(Clone, Copy, Debug, PartialEq, Eq, Structural)]
pub enum DonationError {
    Code(ErrorCode),
    TransferFailed,
}

} // verus!
