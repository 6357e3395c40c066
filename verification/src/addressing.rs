//! Deterministic record addressing.
//!
//! Every record is stored at an address derived from its logical key alone.
//! The derivation is pure and injective, so an address with no record at it
//! is proof that the logical entity does not exist, and two distinct logical
//! keys can never collide. The store layer relies on this to turn
//! "create at an occupied address" into the entity-already-exists failures.

use vstd::prelude::*;

verus! {

/// The storage address of a record: one namespace per record type, keyed by
/// the record's logical identity.
#[derive(Clone, Copy, Debug, PartialEq, Eq, Structural)]
pub enum Address {
    /// The singleton counters record.
    State,
    /// A profile, keyed by its owner identity.
    UserProfile { owner: u64 },
    /// A post, keyed by its sequential id.
    Post { post_id: u64 },
    /// A comment, keyed by its sequential id.
    Comment { comment_id: u64 },
    /// A follow edge, keyed by the ordered (follower, following) pair.
    Follow { follower: u64, following: u64 },
    /// A like edge, keyed by the (user, post) pair.
    Like { user: u64, post_id: u64 },
    /// A donation record, keyed by the (donor, recipient) pair.
    Donation { donor: u64, recipient: u64 },
}

/// Address derivation is injective: two derived addresses are equal exactly
/// when they name the same namespace with the same logical key. An occupied
/// address therefore identifies one logical entity, and creation at a fresh
/// address can never clobber another record.
pub proof fn lemma_derive_injective(a: Address, b: Address)
    ensures
        a == b <==> match (a, b) {
            (Address::State, Address::State) => true,
            (Address::UserProfile { owner: o1 }, Address::UserProfile { owner: o2 }) => o1 == o2,
            (Address::Post { post_id: p1 }, Address::Post { post_id: p2 }) => p1 == p2,
            (Address::Comment { comment_id: c1 }, Address::Comment { comment_id: c2 }) => c1
                == c2,
            (
                Address::Follow { follower: f1, following: g1 },
                Address::Follow { follower: f2, following: g2 },
            ) => f1 == f2 && g1 == g2,
            (
                Address::Like { user: u1, post_id: p1 },
                Address::Like { user: u2, post_id: p2 },
            ) => u1 == u2 && p1 == p2,
            (
                Address::Donation { donor: d1, recipient: r1 },
                Address::Donation { donor: d2, recipient: r2 },
            ) => d1 == d2 && r1 == r2,
            _ => false,
        },
{
}

} // verus!
