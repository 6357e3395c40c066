//! Global properties of the transition engine, stated over the same spec
//! relations the operations' contracts use.

use vstd::prelude::*;
use crate::donations::{donate_applied, fee_of};
use crate::ledger::{lemma_same_profiles_accessors, Ledger};
use crate::posts::delete_post_applied;
use crate::social::{follow_applied, like_applied, unfollow_applied, unlike_applied};

verus! {

/// Counter conservation: under the store invariant each global counter
/// equals the number of records of its kind. Creations push exactly one
/// record and are the only way a record appears, and deletion only
/// tombstones, so the counters equal the number of successful creations.
pub proof fn lemma_counter_conservation(l: Ledger)
    requires
        l.wf(),
    ensures
        l.state.user_count == l.profiles@.len(),
        l.state.post_count == l.posts@.len(),
        l.state.comment_count == l.comments@.len(),
{
}

/// Saturating symmetry for likes: a successful like leaves the edge
/// active (so the unlike is accepted), and the following unlike restores
/// the post's like counter to its pre-like value.
pub proof fn lemma_like_unlike_symmetry(
    l0: Ledger,
    l1: Ledger,
    l2: Ledger,
    user: u64,
    post_id: u64,
    now: u64,
)
    requires
        l0.wf(),
        l0.post(post_id).likes_count < u64::MAX,
        like_applied(l0, l1, user, post_id, now),
        unlike_applied(l1, l2, user, post_id),
    ensures
        l1.has_like(user, post_id),
        l1.has_post(post_id),
        l2.post(post_id).likes_count == l0.post(post_id).likes_count,
        !l2.has_like(user, post_id),
{
    assert(l1.post(post_id).likes_count == l0.post(post_id).likes_count + 1);
}

/// Saturating symmetry for follows: a successful follow leaves the edge
/// active, and the following unfollow restores both profiles' counters to
/// their pre-follow values.
pub proof fn lemma_follow_unfollow_symmetry(
    l0: Ledger,
    l1: Ledger,
    l2: Ledger,
    follower: u64,
    target: u64,
    now: u64,
)
    requires
        l0.wf(),
        l0.has_profile(follower) ==> l0.profile(follower).following_count < u64::MAX,
        l0.has_profile(target) ==> l0.profile(target).followers_count < u64::MAX,
        follow_applied(l0, l1, follower, target, now),
        unfollow_applied(l1, l2, follower, target),
    ensures
        l1.has_follow(follower, target),
        l2.profile(follower).following_count == l0.profile(follower).following_count,
        l2.profile(target).followers_count == l0.profile(target).followers_count,
        !l2.has_follow(follower, target),
{
    assert(l1.profile(follower).following_count == l0.profile(follower).following_count + 1);
    assert(l1.profile(target).followers_count == l0.profile(target).followers_count + 1);
}

/// No double relationship: a successful follow leaves the pair active and
/// irreflexive, and `follow_user`'s contract rejects exactly the active
/// pairs with `AlreadyFollowing` while changing nothing.
pub proof fn lemma_no_double_follow(l0: Ledger, l1: Ledger, follower: u64, target: u64, now: u64)
    requires
        follow_applied(l0, l1, follower, target, now),
    ensures
        l1.has_follow(follower, target),
        follower != target,
{
}

/// Deletion monotonicity: after a successful delete the post stands
/// tombstoned, so the contracts of `create_comment`, `like_post` and a
/// second `delete_post` reject it with `PostDeleted`.
pub proof fn lemma_deletion_monotone(l0: Ledger, l1: Ledger, caller: u64, post_id: u64, now: u64)
    requires
        l0.wf(),
        delete_post_applied(l0, l1, caller, post_id, now),
    ensures
        l1.has_post(post_id),
        l1.post(post_id).is_deleted,
{
}

/// Donation split exactness: a successful donation credits the creator's
/// received total with exactly the net share, moves exactly the net share
/// and the fee to the creator's and the platform's balances, and adds the
/// gross amount to the running total. A zero fee moves nothing to the
/// platform.
pub proof fn lemma_donation_split(
    l0: Ledger,
    l1: Ledger,
    donor: u64,
    creator: u64,
    amount: u64,
    now: u64,
)
    requires
        l0.wf(),
        donate_applied(l0, l1, donor, creator, amount, now),
        l0.profile(creator).total_donations_received + amount <= u64::MAX,
        l0.state.total_donations + amount <= u64::MAX,
        l0.balance_of(creator) + amount <= u64::MAX,
    ensures
        l1.profile(creator).total_donations_received == l0.profile(
            creator,
        ).total_donations_received + (amount - fee_of(amount, l0.state.platform_fee)),
        l1.state.total_donations == l0.state.total_donations + amount,
        l0.state.platform_address != creator ==> l1.balance_of(creator) == l0.balance_of(creator)
            + (amount - fee_of(amount, l0.state.platform_fee)),
        l0.state.platform_address != creator && l0.state.platform_address != donor ==> l1.balance_of(
            l0.state.platform_address,
        ) == l0.balance_of(l0.state.platform_address) + fee_of(amount, l0.state.platform_fee),
        fee_of(amount, l0.state.platform_fee) == 0 && l0.state.platform_address != creator
            && l0.state.platform_address != donor ==> l1.balance_of(l0.state.platform_address)
            == l0.balance_of(l0.state.platform_address),
{
    crate::donations::lemma_fee_bounds(amount, l0.state.platform_fee);
}

/// Author-vs-collaborator delete: when someone other than the original
/// author (the collaborator) deletes a collaboration post, the post is
/// tombstoned but that caller's own live-post counter is untouched; only
/// the author's counter is ever decremented by deletion.
pub proof fn lemma_collaborator_delete_keeps_counter(
    l0: Ledger,
    l1: Ledger,
    caller: u64,
    post_id: u64,
    now: u64,
)
    requires
        l0.wf(),
        delete_post_applied(l0, l1, caller, post_id, now),
        caller != l0.post(post_id).author,
    ensures
        l1.has_post(post_id),
        l1.post(post_id).is_deleted,
        l1.has_profile(caller),
        l1.profile(caller).posts_count == l0.profile(caller).posts_count,
{
    lemma_same_profiles_accessors(l0, l1);
}

} // verus!
