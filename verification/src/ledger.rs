//! The record store and transition engine.
//!
//! `Ledger` plays the role of the host platform's record storage: every
//! record type lives in its own collection, keyed by the logical identity
//! that the addressing scheme derives its address from. Allocate-or-reject
//! is an atomic lookup-then-push under the store's uniqueness invariant, so
//! an existing key is proof the entity exists and a missing key is proof it
//! does not. Each public method is one atomic caller operation: it either
//! applies in full or returns one failure kind and changes nothing.

use vstd::prelude::*;
use crate::errors::ErrorCode;
use crate::states::{Balance, Comment, Donation, Follow, Like, Post, ProgramState, UserProfile};
use crate::addressing::Address;

verus! {

/// The whole platform state: the singleton counters record, one collection
/// per record type, and the caller funding balances the donation flow
/// debits.
///
/// The counters record is created exactly once by `initialize`; every
/// other transition requires that it exists, mirroring the hosted
/// lifecycle in which an operation cannot even resolve its accounts
/// before the deployment is initialized.
pub struct Ledger {
    pub state: ProgramState,
    pub profiles: Vec<UserProfile>,
    pub posts: Vec<Post>,
    pub comments: Vec<Comment>,
    pub follows: Vec<Follow>,
    pub likes: Vec<Like>,
    pub donations: Vec<Donation>,
    pub balances: Vec<Balance>,
}

/// A profile for this owner stands somewhere in the sequence.
pub open spec fn seq_has_profile(s: Seq<UserProfile>, owner: u64) -> bool {
    exists|i: int| 0 <= i < s.len() && (#[trigger] s[i]).owner == owner
}

/// The index it stands at.
pub open spec fn seq_profile_ix(s: Seq<UserProfile>, owner: u64) -> int {
    choose|i: int| 0 <= i < s.len() && (#[trigger] s[i]).owner == owner
}

/// A follow edge for this pair stands somewhere in the sequence.
pub open spec fn seq_has_follow(s: Seq<Follow>, follower: u64, following: u64) -> bool {
    exists|i: int|
        0 <= i < s.len() && (#[trigger] s[i]).follower == follower && s[i].following == following
}

/// The index it stands at.
pub open spec fn seq_follow_ix(s: Seq<Follow>, follower: u64, following: u64) -> int {
    choose|i: int|
        0 <= i < s.len() && (#[trigger] s[i]).follower == follower && s[i].following == following
}

/// A like edge for this pair stands somewhere in the sequence.
pub open spec fn seq_has_like(s: Seq<Like>, user: u64, post_id: u64) -> bool {
    exists|i: int|
        0 <= i < s.len() && (#[trigger] s[i]).user == user && s[i].post_id == post_id
}

/// The index it stands at.
pub open spec fn seq_like_ix(s: Seq<Like>, user: u64, post_id: u64) -> int {
    choose|i: int|
        0 <= i < s.len() && (#[trigger] s[i]).user == user && s[i].post_id == post_id
}

/// A donation record for this pair stands somewhere in the sequence.
pub open spec fn seq_has_donation(s: Seq<Donation>, donor: u64, recipient: u64) -> bool {
    exists|i: int|
        0 <= i < s.len() && (#[trigger] s[i]).donor == donor && s[i].recipient == recipient
}

/// The index it stands at.
pub open spec fn seq_donation_ix(s: Seq<Donation>, donor: u64, recipient: u64) -> int {
    choose|i: int|
        0 <= i < s.len() && (#[trigger] s[i]).donor == donor && s[i].recipient == recipient
}

/// A balance record for this identity stands somewhere in the sequence.
pub open spec fn seq_has_balance(s: Seq<Balance>, owner: u64) -> bool {
    exists|i: int| 0 <= i < s.len() && (#[trigger] s[i]).owner == owner
}

/// The index it stands at.
pub open spec fn seq_balance_ix(s: Seq<Balance>, owner: u64) -> int {
    choose|i: int| 0 <= i < s.len() && (#[trigger] s[i]).owner == owner
}

impl Ledger {
    /// A profile exists for this owner identity.
    pub open spec fn has_profile(self, owner: u64) -> bool {
        seq_has_profile(self.profiles@, owner)
    }

    /// Index of the owner's profile (meaningful under `wf` when it exists).
    pub open spec fn profile_ix(self, owner: u64) -> int {
        seq_profile_ix(self.profiles@, owner)
    }

    /// The owner's profile record.
    pub open spec fn profile(self, owner: u64) -> UserProfile {
        self.profiles@[self.profile_ix(owner)]
    }

    /// A post with this id has been created (ids are dense and never
    /// reused, so this is a range check).
    pub open spec fn has_post(self, post_id: u64) -> bool {
        1 <= post_id <= self.posts@.len()
    }

    /// The post with this id.
    pub open spec fn post(self, post_id: u64) -> Post {
        self.posts@[post_id as int - 1]
    }

    /// A comment with this id has been created.
    pub open spec fn has_comment(self, comment_id: u64) -> bool {
        1 <= comment_id <= self.comments@.len()
    }

    /// The comment with this id.
    pub open spec fn comment(self, comment_id: u64) -> Comment {
        self.comments@[comment_id as int - 1]
    }

    /// The follow relationship is active.
    pub open spec fn has_follow(self, follower: u64, following: u64) -> bool {
        seq_has_follow(self.follows@, follower, following)
    }

    /// Index of the follow edge for this pair.
    pub open spec fn follow_ix(self, follower: u64, following: u64) -> int {
        seq_follow_ix(self.follows@, follower, following)
    }

    /// The follow edge for this pair.
    pub open spec fn follow_edge(self, follower: u64, following: u64) -> Follow {
        self.follows@[self.follow_ix(follower, following)]
    }

    /// The user has liked this post.
    pub open spec fn has_like(self, user: u64, post_id: u64) -> bool {
        seq_has_like(self.likes@, user, post_id)
    }

    /// Index of the like edge for this pair.
    pub open spec fn like_ix(self, user: u64, post_id: u64) -> int {
        seq_like_ix(self.likes@, user, post_id)
    }

    /// The like edge for this pair.
    pub open spec fn like_edge(self, user: u64, post_id: u64) -> Like {
        self.likes@[self.like_ix(user, post_id)]
    }

    /// A donation record exists for this donor/recipient pair.
    pub open spec fn has_donation(self, donor: u64, recipient: u64) -> bool {
        seq_has_donation(self.donations@, donor, recipient)
    }

    /// Index of the donation record for this pair.
    pub open spec fn donation_ix(self, donor: u64, recipient: u64) -> int {
        seq_donation_ix(self.donations@, donor, recipient)
    }

    /// The donation record for this pair.
    pub open spec fn donation(self, donor: u64, recipient: u64) -> Donation {
        self.donations@[self.donation_ix(donor, recipient)]
    }

    /// A funding balance record exists for this identity.
    pub open spec fn has_balance(self, owner: u64) -> bool {
        seq_has_balance(self.balances@, owner)
    }

    /// Index of the identity's balance record.
    pub open spec fn balance_ix(self, owner: u64) -> int {
        seq_balance_ix(self.balances@, owner)
    }

    /// The identity's funding balance; an identity with no record holds
    /// nothing.
    pub open spec fn balance_of(self, owner: u64) -> u64 {
        if self.has_balance(owner) {
            self.balances@[self.balance_ix(owner)].amount
        } else {
            0
        }
    }

    /// Counters agree with the record collections and the fee is a percent.
    pub open spec fn state_wf(self) -> bool {
        &&& self.state.user_count == self.profiles@.len()
        &&& self.state.post_count == self.posts@.len()
        &&& self.state.comment_count == self.comments@.len()
        &&& self.state.platform_fee <= 100
    }

    /// No two profiles share an owner identity.
    pub open spec fn profiles_unique(self) -> bool {
        forall|i: int, j: int|
            0 <= i < j < self.profiles@.len() ==> (#[trigger] self.profiles@[i]).owner != (
            #[trigger] self.profiles@[j]).owner
    }

    /// Profiles are well-formed, their user ids are dense, their owners are
    /// unique, and nobody claims more live posts than were ever created.
    pub open spec fn profiles_wf(self) -> bool {
        &&& forall|i: int|
            0 <= i < self.profiles@.len() ==> (#[trigger] self.profiles@[i]).wf()
        &&& forall|i: int|
            0 <= i < self.profiles@.len() ==> (#[trigger] self.profiles@[i]).user_id == i + 1
        &&& self.profiles_unique()
        &&& forall|i: int|
            0 <= i < self.profiles@.len() ==> (#[trigger] self.profiles@[i]).posts_count
                <= self.state.post_count
    }

    /// Posts are well-formed with dense ids.
    pub open spec fn posts_wf(self) -> bool {
        &&& forall|i: int| 0 <= i < self.posts@.len() ==> (#[trigger] self.posts@[i]).wf()
        &&& forall|i: int|
            0 <= i < self.posts@.len() ==> (#[trigger] self.posts@[i]).post_id == i + 1
        &&& forall|i: int|
            0 <= i < self.posts@.len() ==> (#[trigger] self.posts@[i]).comments_count
                <= self.state.comment_count
    }

    /// Comments are well-formed with dense ids, each under a created post.
    pub open spec fn comments_wf(self) -> bool {
        &&& forall|i: int| 0 <= i < self.comments@.len() ==> (#[trigger] self.comments@[i]).wf()
        &&& forall|i: int|
            0 <= i < self.comments@.len() ==> (#[trigger] self.comments@[i]).comment_id == i + 1
        &&& forall|i: int|
            0 <= i < self.comments@.len() ==> 1 <= (#[trigger] self.comments@[i]).post_id
                <= self.posts@.len()
    }

    /// At most one follow edge per ordered pair.
    pub open spec fn follows_unique(self) -> bool {
        forall|i: int, j: int|
            0 <= i < j < self.follows@.len() ==> !((#[trigger] self.follows@[i]).follower == (
            #[trigger] self.follows@[j]).follower && self.follows@[i].following
                == self.follows@[j].following)
    }

    /// At most one follow edge per ordered pair, never reflexive, and both
    /// ends have profiles.
    pub open spec fn follows_wf(self) -> bool {
        &&& forall|i: int|
            0 <= i < self.follows@.len() ==> (#[trigger] self.follows@[i]).follower
                != self.follows@[i].following
        &&& self.follows_unique()
        &&& forall|i: int|
            0 <= i < self.follows@.len() ==> self.has_profile(
                (#[trigger] self.follows@[i]).follower,
            ) && self.has_profile(self.follows@[i].following)
    }

    /// At most one like edge per (user, post) pair.
    pub open spec fn likes_unique(self) -> bool {
        forall|i: int, j: int|
            0 <= i < j < self.likes@.len() ==> !((#[trigger] self.likes@[i]).user == (
            #[trigger] self.likes@[j]).user && self.likes@[i].post_id == self.likes@[j].post_id)
    }

    /// At most one like edge per (user, post) pair, each against a created
    /// post.
    pub open spec fn likes_wf(self) -> bool {
        &&& self.likes_unique()
        &&& forall|i: int|
            0 <= i < self.likes@.len() ==> 1 <= (#[trigger] self.likes@[i]).post_id
                <= self.posts@.len()
    }

    /// At most one donation record per donor/recipient pair.
    pub open spec fn donations_unique(self) -> bool {
        forall|i: int, j: int|
            0 <= i < j < self.donations@.len() ==> !((#[trigger] self.donations@[i]).donor == (
            #[trigger] self.donations@[j]).donor && self.donations@[i].recipient
                == self.donations@[j].recipient)
    }

    /// At most one donation record per donor/recipient pair, never
    /// reflexive, each carrying its own derived address as reference.
    pub open spec fn donations_wf(self) -> bool {
        &&& forall|i: int|
            0 <= i < self.donations@.len() ==> (#[trigger] self.donations@[i]).donor
                != self.donations@[i].recipient
        &&& self.donations_unique()
        &&& forall|i: int|
            0 <= i < self.donations@.len() ==> (#[trigger] self.donations@[i]).transaction_id
                == (Address::Donation {
                donor: self.donations@[i].donor,
                recipient: self.donations@[i].recipient,
            })
    }

    /// At most one balance record per identity.
    pub open spec fn balances_unique(self) -> bool {
        forall|i: int, j: int|
            0 <= i < j < self.balances@.len() ==> (#[trigger] self.balances@[i]).owner != (
            #[trigger] self.balances@[j]).owner
    }

    /// The funding balances hold one record per identity.
    pub open spec fn balances_wf(self) -> bool {
        self.balances_unique()
    }

    /// The store's well-formedness invariant: every constructor establishes
    /// it and every transition preserves it.
    pub open spec fn wf(self) -> bool {
        &&& self.state_wf()
        &&& self.profiles_wf()
        &&& self.posts_wf()
        &&& self.comments_wf()
        &&& self.follows_wf()
        &&& self.likes_wf()
        &&& self.donations_wf()
        &&& self.balances_wf()
    }

    /// Under `wf`, the owner's profile index is the unique index holding
    /// that owner.
    pub proof fn lemma_profile_ix(self, owner: u64)
        requires
            self.profiles_unique(),
            self.has_profile(owner),
        ensures
            0 <= self.profile_ix(owner) < self.profiles@.len(),
            self.profiles@[self.profile_ix(owner)].owner == owner,
            self.profile(owner).owner == owner,
            forall|i: int|
                0 <= i < self.profiles@.len() && (#[trigger] self.profiles@[i]).owner == owner
                    ==> i == self.profile_ix(owner),
    {
        let ix = self.profile_ix(owner);
        assert(0 <= ix < self.profiles@.len() && self.profiles@[ix].owner == owner);
        assert forall|i: int|
            0 <= i < self.profiles@.len() && (#[trigger] self.profiles@[i]).owner == owner
                implies i == ix by {
            if i < ix {
                assert(self.profiles@[i].owner != self.profiles@[ix].owner);
            } else if ix < i {
                assert(self.profiles@[ix].owner != self.profiles@[i].owner);
            }
        }
    }

    /// Under `wf`, the follow edge's index is unique for its pair.
    pub proof fn lemma_follow_ix(self, follower: u64, following: u64)
        requires
            self.follows_unique(),
            self.has_follow(follower, following),
        ensures
            0 <= self.follow_ix(follower, following) < self.follows@.len(),
            self.follow_edge(follower, following).follower == follower,
            self.follow_edge(follower, following).following == following,
            forall|i: int|
                0 <= i < self.follows@.len() && (#[trigger] self.follows@[i]).follower == follower
                    && self.follows@[i].following == following ==> i == self.follow_ix(
                    follower,
                    following,
                ),
    {
        let ix = self.follow_ix(follower, following);
        assert(0 <= ix < self.follows@.len() && self.follows@[ix].follower == follower
            && self.follows@[ix].following == following);
        assert forall|i: int|
            0 <= i < self.follows@.len() && (#[trigger] self.follows@[i]).follower == follower
                && self.follows@[i].following == following implies i == ix by {
            if i < ix {
                assert(!(self.follows@[i].follower == self.follows@[ix].follower
                    && self.follows@[i].following == self.follows@[ix].following));
            } else if ix < i {
                assert(!(self.follows@[ix].follower == self.follows@[i].follower
                    && self.follows@[ix].following == self.follows@[i].following));
            }
        }
    }

    /// Under `wf`, the like edge's index is unique for its pair.
    pub proof fn lemma_like_ix(self, user: u64, post_id: u64)
        requires
            self.likes_unique(),
            self.has_like(user, post_id),
        ensures
            0 <= self.like_ix(user, post_id) < self.likes@.len(),
            self.like_edge(user, post_id).user == user,
            self.like_edge(user, post_id).post_id == post_id,
            forall|i: int|
                0 <= i < self.likes@.len() && (#[trigger] self.likes@[i]).user == user
                    && self.likes@[i].post_id == post_id ==> i == self.like_ix(user, post_id),
    {
        let ix = self.like_ix(user, post_id);
        assert(0 <= ix < self.likes@.len() && self.likes@[ix].user == user
            && self.likes@[ix].post_id == post_id);
        assert forall|i: int|
            0 <= i < self.likes@.len() && (#[trigger] self.likes@[i]).user == user
                && self.likes@[i].post_id == post_id implies i == ix by {
            if i < ix {
                assert(!(self.likes@[i].user == self.likes@[ix].user && self.likes@[i].post_id
                    == self.likes@[ix].post_id));
            } else if ix < i {
                assert(!(self.likes@[ix].user == self.likes@[i].user && self.likes@[ix].post_id
                    == self.likes@[i].post_id));
            }
        }
    }

    /// Under `wf`, the donation record's index is unique for its pair.
    pub proof fn lemma_donation_ix(self, donor: u64, recipient: u64)
        requires
            self.donations_unique(),
            self.has_donation(donor, recipient),
        ensures
            0 <= self.donation_ix(donor, recipient) < self.donations@.len(),
            self.donation(donor, recipient).donor == donor,
            self.donation(donor, recipient).recipient == recipient,
            forall|i: int|
                0 <= i < self.donations@.len() && (#[trigger] self.donations@[i]).donor == donor
                    && self.donations@[i].recipient == recipient ==> i == self.donation_ix(
                    donor,
                    recipient,
                ),
    {
        let ix = self.donation_ix(donor, recipient);
        assert(0 <= ix < self.donations@.len() && self.donations@[ix].donor == donor
            && self.donations@[ix].recipient == recipient);
        assert forall|i: int|
            0 <= i < self.donations@.len() && (#[trigger] self.donations@[i]).donor == donor
                && self.donations@[i].recipient == recipient implies i == ix by {
            if i < ix {
                assert(!(self.donations@[i].donor == self.donations@[ix].donor
                    && self.donations@[i].recipient == self.donations@[ix].recipient));
            } else if ix < i {
                assert(!(self.donations@[ix].donor == self.donations@[i].donor
                    && self.donations@[ix].recipient == self.donations@[i].recipient));
            }
        }
    }

    /// Under `wf`, the balance record's index is unique for its owner.
    pub proof fn lemma_balance_ix(self, owner: u64)
        requires
            self.balances_unique(),
            self.has_balance(owner),
        ensures
            0 <= self.balance_ix(owner) < self.balances@.len(),
            self.balances@[self.balance_ix(owner)].owner == owner,
            forall|i: int|
                0 <= i < self.balances@.len() && (#[trigger] self.balances@[i]).owner == owner
                    ==> i == self.balance_ix(owner),
    {
        let ix = self.balance_ix(owner);
        assert(0 <= ix < self.balances@.len() && self.balances@[ix].owner == owner);
        assert forall|i: int|
            0 <= i < self.balances@.len() && (#[trigger] self.balances@[i]).owner == owner
                implies i == ix by {
            if i < ix {
                assert(self.balances@[i].owner != self.balances@[ix].owner);
            } else if ix < i {
                assert(self.balances@[ix].owner != self.balances@[i].owner);
            }
        }
    }

    /// Finds the index of the owner's profile.
    pub(crate) fn find_profile(&self, owner: u64) -> (r: Option<usize>)
        ensures
            match r {
                Some(i) => i < self.profiles@.len() && self.profiles@[i as int].owner == owner,
                None => !self.has_profile(owner),
            },
    {
        let n = self.profiles.len();
        let mut k: usize = 0;
        while k < n
            invariant
                n == self.profiles@.len(),
                k <= n,
                forall|j: int| 0 <= j < k ==> (#[trigger] self.profiles@[j]).owner != owner,
            decreases n - k,
        {
            if self.profiles[k].owner == owner {
                return Some(k);
            }
            k = k + 1;
        }
        None
    }

    /// Finds the index of the follow edge for the pair.
    pub(crate) fn find_follow(&self, follower: u64, following: u64) -> (r: Option<usize>)
        ensures
            match r {
                Some(i) => i < self.follows@.len() && self.follows@[i as int].follower == follower
                    && self.follows@[i as int].following == following,
                None => !self.has_follow(follower, following),
            },
    {
        let n = self.follows.len();
        let mut k: usize = 0;
        while k < n
            invariant
                n == self.follows@.len(),
                k <= n,
                forall|j: int|
                    0 <= j < k ==> !((#[trigger] self.follows@[j]).follower == follower
                        && self.follows@[j].following == following),
            decreases n - k,
        {
            if self.follows[k].follower == follower && self.follows[k].following == following {
                return Some(k);
            }
            k = k + 1;
        }
        None
    }

    /// Finds the index of the like edge for the pair.
    pub(crate) fn find_like(&self, user: u64, post_id: u64) -> (r: Option<usize>)
        ensures
            match r {
                Some(i) => i < self.likes@.len() && self.likes@[i as int].user == user
                    && self.likes@[i as int].post_id == post_id,
                None => !self.has_like(user, post_id),
            },
    {
        let n = self.likes.len();
        let mut k: usize = 0;
        while k < n
            invariant
                n == self.likes@.len(),
                k <= n,
                forall|j: int|
                    0 <= j < k ==> !((#[trigger] self.likes@[j]).user == user
                        && self.likes@[j].post_id == post_id),
            decreases n - k,
        {
            if self.likes[k].user == user && self.likes[k].post_id == post_id {
                return Some(k);
            }
            k = k + 1;
        }
        None
    }

    /// Finds the index of the donation record for the pair.
    pub(crate) fn find_donation(&self, donor: u64, recipient: u64) -> (r: Option<usize>)
        ensures
            match r {
                Some(i) => i < self.donations@.len() && self.donations@[i as int].donor == donor
                    && self.donations@[i as int].recipient == recipient,
                None => !self.has_donation(donor, recipient),
            },
    {
        let n = self.donations.len();
        let mut k: usize = 0;
        while k < n
            invariant
                n == self.donations@.len(),
                k <= n,
                forall|j: int|
                    0 <= j < k ==> !((#[trigger] self.donations@[j]).donor == donor
                        && self.donations@[j].recipient == recipient),
            decreases n - k,
        {
            if self.donations[k].donor == donor && self.donations[k].recipient == recipient {
                return Some(k);
            }
            k = k + 1;
        }
        None
    }

    /// Finds the index of the identity's balance record.
    pub(crate) fn find_balance(&self, owner: u64) -> (r: Option<usize>)
        ensures
            match r {
                Some(i) => i < self.balances@.len() && self.balances@[i as int].owner == owner,
                None => !self.has_balance(owner),
            },
    {
        let n = self.balances.len();
        let mut k: usize = 0;
        while k < n
            invariant
                n == self.balances@.len(),
                k <= n,
                forall|j: int| 0 <= j < k ==> (#[trigger] self.balances@[j]).owner != owner,
            decreases n - k,
        {
            if self.balances[k].owner == owner {
                return Some(k);
            }
            k = k + 1;
        }
        None
    }

    /// An empty, not yet initialized platform.
    pub fn new() -> (l: Ledger)
        ensures
            l.wf(),
            l.state == (ProgramState {
                initialized: false,
                user_count: 0,
                post_count: 0,
                comment_count: 0,
                platform_fee: 0,
                platform_address: 0,
                total_donations: 0,
            }),
            l.profiles@.len() == 0,
            l.posts@.len() == 0,
            l.comments@.len() == 0,
            l.follows@.len() == 0,
            l.likes@.len() == 0,
            l.donations@.len() == 0,
            l.balances@.len() == 0,
    {
        Ledger {
            state: ProgramState {
                initialized: false,
                user_count: 0,
                post_count: 0,
                comment_count: 0,
                platform_fee: 0,
                platform_address: 0,
                total_donations: 0,
            },
            profiles: Vec::new(),
            posts: Vec::new(),
            comments: Vec::new(),
            follows: Vec::new(),
            likes: Vec::new(),
            donations: Vec::new(),
            balances: Vec::new(),
        }
    }

    /// Creates the singleton counters record: all counters zero, the
    /// caller-supplied fee percent and platform identity. Fails if the
    /// record already exists.
    pub fn initialize(&mut self, platform_fee: u64, platform_address: u64) -> (r: Result<
        (),
        ErrorCode,
    >)
        requires
            old(self).wf(),
            platform_fee <= 100,
        ensures
            final(self).wf(),
            r is Ok <==> !old(self).state.initialized,
            r is Err ==> r matches Err(ErrorCode::AlreadyInitialized),
            r is Err ==> *final(self) == *old(self),
            r is Ok ==> final(self).state == (ProgramState {
                initialized: true,
                platform_fee,
                platform_address,
                ..old(self).state
            }),
            r is Ok ==> final(self).profiles@ == old(self).profiles@,
            r is Ok ==> final(self).posts@ == old(self).posts@,
            r is Ok ==> final(self).comments@ == old(self).comments@,
            r is Ok ==> final(self).follows@ == old(self).follows@,
            r is Ok ==> final(self).likes@ == old(self).likes@,
            r is Ok ==> final(self).donations@ == old(self).donations@,
            r is Ok ==> final(self).balances@ == old(self).balances@,
    {
        if self.state.initialized {
            return Err(ErrorCode::AlreadyInitialized);
        }
        self.state.initialized = true;
        self.state.platform_fee = platform_fee;
        self.state.platform_address = platform_address;
        proof {
            lemma_same_profiles_same_has(*old(self), *self);
        }
        Ok(())
    }

    /// Credits an identity's funding source: the host-side provisioning
    /// that donations later draw on.
    pub fn fund_account(&mut self, owner: u64, amount: u64)
        requires
            old(self).wf(),
            old(self).balance_of(owner) + amount <= u64::MAX,
        ensures
            final(self).wf(),
            forall|k: u64|
                final(self).balance_of(k) == old(self).balance_of(k) + (if k == owner {
                    amount as int
                } else {
                    0
                }),
            final(self).state == old(self).state,
            final(self).profiles@ == old(self).profiles@,
            final(self).posts@ == old(self).posts@,
            final(self).comments@ == old(self).comments@,
            final(self).follows@ == old(self).follows@,
            final(self).likes@ == old(self).likes@,
            final(self).donations@ == old(self).donations@,
    {
        let r = self.find_balance(owner);
        match r {
            Some(i) => {
                proof {
                    old(self).lemma_balance_ix(owner);
                }
                let mut b = self.balances.remove(i);
                b.amount = b.amount + amount;
                self.balances.insert(i, b);
                proof {
                    crate::ledger::lemma_remove_insert_is_update(
                        old(self).balances@,
                        i as int,
                        b,
                    );
                    lemma_balances_updated(*old(self), *self, i as int, b);
                    lemma_same_profiles_same_has(*old(self), *self);
                }
            },
            None => {
                self.balances.push(Balance { owner, amount });
                proof {
                    lemma_balances_pushed(*old(self), *self, (Balance { owner, amount }));
                    lemma_same_profiles_same_has(*old(self), *self);
                }
            },
        }
    }
}

/// A counter decrement that sticks at zero.
pub open spec fn sat_dec(x: u64) -> u64 {
    if x == 0 {
        0
    } else {
        (x - 1) as u64
    }
}

/// Pushing a follow edge for a fresh pair activates that pair alone.
pub proof fn lemma_follows_pushed(pre: Ledger, post: Ledger, e: Follow)
    requires
        pre.follows_unique(),
        !pre.has_follow(e.follower, e.following),
        post.follows@ == pre.follows@.push(e),
    ensures
        post.follows_unique(),
        post.has_follow(e.follower, e.following),
        post.follow_edge(e.follower, e.following) == e,
        forall|a: u64, b: u64|
            !(a == e.follower && b == e.following) ==> #[trigger] post.has_follow(a, b)
                == pre.has_follow(a, b),
        forall|a: u64, b: u64|
            !(a == e.follower && b == e.following) && pre.has_follow(a, b)
                ==> #[trigger] post.follow_edge(a, b) == pre.follow_edge(a, b),
{
    let n = pre.follows@.len() as int;
    assert(post.follows@[n] == e);
    assert forall|i: int, j: int| 0 <= i < j < post.follows@.len() implies !((
    #[trigger] post.follows@[i]).follower == (#[trigger] post.follows@[j]).follower
        && post.follows@[i].following == post.follows@[j].following) by {
        if j < n {
            assert(!(pre.follows@[i].follower == pre.follows@[j].follower
                && pre.follows@[i].following == pre.follows@[j].following));
        } else {
            assert(post.follows@[j] == e);
            assert(post.follows@[i] == pre.follows@[i]);
            if post.follows@[i].follower == e.follower && post.follows@[i].following
                == e.following {
                assert(pre.has_follow(e.follower, e.following));
            }
        }
    }
    assert(post.has_follow(e.follower, e.following)) by {
        assert(post.follows@[n].follower == e.follower && post.follows@[n].following
            == e.following);
    }
    post.lemma_follow_ix(e.follower, e.following);
    assert(post.follow_ix(e.follower, e.following) == n);
    assert forall|a: u64, b: u64| !(a == e.follower && b == e.following) implies
        #[trigger] post.has_follow(a, b) == pre.has_follow(a, b) by {
        if pre.has_follow(a, b) {
            let w = choose|i: int|
                0 <= i < pre.follows@.len() && (#[trigger] pre.follows@[i]).follower == a
                    && pre.follows@[i].following == b;
            assert(post.follows@[w].follower == a && post.follows@[w].following == b);
        }
        if post.has_follow(a, b) {
            let w = choose|i: int|
                0 <= i < post.follows@.len() && (#[trigger] post.follows@[i]).follower == a
                    && post.follows@[i].following == b;
            assert(w != n);
            assert(pre.follows@[w].follower == a && pre.follows@[w].following == b);
        }
    }
    assert forall|a: u64, b: u64|
        !(a == e.follower && b == e.following) && pre.has_follow(a, b) implies
        #[trigger] post.follow_edge(a, b) == pre.follow_edge(a, b) by {
        pre.lemma_follow_ix(a, b);
        post.lemma_follow_ix(a, b);
        let w = pre.follow_ix(a, b);
        assert(post.follows@[w].follower == a && post.follows@[w].following == b);
        assert(post.follow_ix(a, b) == w);
    }
}

/// Removing the follow edge at an index deactivates its pair alone.
pub proof fn lemma_follows_removed(pre: Ledger, post: Ledger, ix: int)
    requires
        pre.follows_unique(),
        0 <= ix < pre.follows@.len(),
        post.follows@ == pre.follows@.remove(ix),
    ensures
        post.follows@.len() == pre.follows@.len() - 1,
        forall|i: int| 0 <= i < ix ==> #[trigger] post.follows@[i] == pre.follows@[i],
        forall|i: int|
            ix <= i < post.follows@.len() ==> #[trigger] post.follows@[i] == pre.follows@[i + 1],
        post.follows_unique(),
        !post.has_follow(pre.follows@[ix].follower, pre.follows@[ix].following),
        forall|a: u64, b: u64|
            !(a == pre.follows@[ix].follower && b == pre.follows@[ix].following)
                ==> #[trigger] post.has_follow(a, b) == pre.has_follow(a, b),
        forall|a: u64, b: u64|
            !(a == pre.follows@[ix].follower && b == pre.follows@[ix].following)
                && pre.has_follow(a, b) ==> #[trigger] post.follow_edge(a, b) == pre.follow_edge(
                a,
                b,
            ),
{
    pre.follows@.remove_ensures(ix);
    let e = pre.follows@[ix];
    assert forall|i: int, j: int| 0 <= i < j < post.follows@.len() implies !((
    #[trigger] post.follows@[i]).follower == (#[trigger] post.follows@[j]).follower
        && post.follows@[i].following == post.follows@[j].following) by {
        let i0 = if i < ix {
            i
        } else {
            i + 1
        };
        let j0 = if j < ix {
            j
        } else {
            j + 1
        };
        assert(post.follows@[i] == pre.follows@[i0]);
        assert(post.follows@[j] == pre.follows@[j0]);
        assert(!(pre.follows@[i0].follower == pre.follows@[j0].follower
            && pre.follows@[i0].following == pre.follows@[j0].following));
    }
    assert(!post.has_follow(e.follower, e.following)) by {
        if post.has_follow(e.follower, e.following) {
            let w = choose|i: int|
                0 <= i < post.follows@.len() && (#[trigger] post.follows@[i]).follower
                    == e.follower && post.follows@[i].following == e.following;
            let w0 = if w < ix {
                w
            } else {
                w + 1
            };
            assert(pre.follows@[w0] == post.follows@[w]);
            assert(w0 != ix);
            assert(!(pre.follows@[w0].follower == pre.follows@[ix].follower
                && pre.follows@[w0].following == pre.follows@[ix].following));
        }
    }
    assert forall|a: u64, b: u64| !(a == e.follower && b == e.following) implies
        #[trigger] post.has_follow(a, b) == pre.has_follow(a, b) by {
        if pre.has_follow(a, b) {
            pre.lemma_follow_ix(a, b);
            let w = pre.follow_ix(a, b);
            assert(w != ix);
            let w1 = if w < ix {
                w
            } else {
                w - 1
            };
            assert(post.follows@[w1] == pre.follows@[w]);
            assert(post.follows@[w1].follower == a && post.follows@[w1].following == b);
        }
        if post.has_follow(a, b) {
            let w = choose|i: int|
                0 <= i < post.follows@.len() && (#[trigger] post.follows@[i]).follower == a
                    && post.follows@[i].following == b;
            let w0 = if w < ix {
                w
            } else {
                w + 1
            };
            assert(pre.follows@[w0] == post.follows@[w]);
        }
    }
    assert forall|a: u64, b: u64|
        !(a == e.follower && b == e.following) && pre.has_follow(a, b) implies
        #[trigger] post.follow_edge(a, b) == pre.follow_edge(a, b) by {
        pre.lemma_follow_ix(a, b);
        post.lemma_follow_ix(a, b);
        let w = pre.follow_ix(a, b);
        assert(w != ix);
        let w1 = if w < ix {
            w
        } else {
            w - 1
        };
        assert(post.follows@[w1] == pre.follows@[w]);
        assert(post.follows@[w1].follower == a && post.follows@[w1].following == b);
        assert(post.follow_ix(a, b) == w1);
    }
}

/// Pushing a like edge for a fresh pair activates that pair alone.
pub proof fn lemma_likes_pushed(pre: Ledger, post: Ledger, e: Like)
    requires
        pre.likes_unique(),
        !pre.has_like(e.user, e.post_id),
        post.likes@ == pre.likes@.push(e),
    ensures
        post.likes_unique(),
        post.has_like(e.user, e.post_id),
        post.like_edge(e.user, e.post_id) == e,
        forall|a: u64, b: u64|
            !(a == e.user && b == e.post_id) ==> #[trigger] post.has_like(a, b) == pre.has_like(
                a,
                b,
            ),
        forall|a: u64, b: u64|
            !(a == e.user && b == e.post_id) && pre.has_like(a, b) ==> #[trigger] post.like_edge(
                a,
                b,
            ) == pre.like_edge(a, b),
{
    let n = pre.likes@.len() as int;
    assert(post.likes@[n] == e);
    assert forall|i: int, j: int| 0 <= i < j < post.likes@.len() implies !((
    #[trigger] post.likes@[i]).user == (#[trigger] post.likes@[j]).user && post.likes@[i].post_id
        == post.likes@[j].post_id) by {
        if j < n {
            assert(!(pre.likes@[i].user == pre.likes@[j].user && pre.likes@[i].post_id
                == pre.likes@[j].post_id));
        } else {
            assert(post.likes@[j] == e);
            assert(post.likes@[i] == pre.likes@[i]);
            if post.likes@[i].user == e.user && post.likes@[i].post_id == e.post_id {
                assert(pre.has_like(e.user, e.post_id));
            }
        }
    }
    assert(post.has_like(e.user, e.post_id)) by {
        assert(post.likes@[n].user == e.user && post.likes@[n].post_id == e.post_id);
    }
    post.lemma_like_ix(e.user, e.post_id);
    assert(post.like_ix(e.user, e.post_id) == n);
    assert forall|a: u64, b: u64| !(a == e.user && b == e.post_id) implies
        #[trigger] post.has_like(a, b) == pre.has_like(a, b) by {
        if pre.has_like(a, b) {
            let w = choose|i: int|
                0 <= i < pre.likes@.len() && (#[trigger] pre.likes@[i]).user == a
                    && pre.likes@[i].post_id == b;
            assert(post.likes@[w].user == a && post.likes@[w].post_id == b);
        }
        if post.has_like(a, b) {
            let w = choose|i: int|
                0 <= i < post.likes@.len() && (#[trigger] post.likes@[i]).user == a
                    && post.likes@[i].post_id == b;
            assert(w != n);
            assert(pre.likes@[w].user == a && pre.likes@[w].post_id == b);
        }
    }
    assert forall|a: u64, b: u64| !(a == e.user && b == e.post_id) && pre.has_like(a, b) implies
        #[trigger] post.like_edge(a, b) == pre.like_edge(a, b) by {
        pre.lemma_like_ix(a, b);
        post.lemma_like_ix(a, b);
        let w = pre.like_ix(a, b);
        assert(post.likes@[w].user == a && post.likes@[w].post_id == b);
        assert(post.like_ix(a, b) == w);
    }
}

/// Removing the like edge at an index deactivates its pair alone.
pub proof fn lemma_likes_removed(pre: Ledger, post: Ledger, ix: int)
    requires
        pre.likes_unique(),
        0 <= ix < pre.likes@.len(),
        post.likes@ == pre.likes@.remove(ix),
    ensures
        post.likes@.len() == pre.likes@.len() - 1,
        forall|i: int| 0 <= i < ix ==> #[trigger] post.likes@[i] == pre.likes@[i],
        forall|i: int|
            ix <= i < post.likes@.len() ==> #[trigger] post.likes@[i] == pre.likes@[i + 1],
        post.likes_unique(),
        !post.has_like(pre.likes@[ix].user, pre.likes@[ix].post_id),
        forall|a: u64, b: u64|
            !(a == pre.likes@[ix].user && b == pre.likes@[ix].post_id)
                ==> #[trigger] post.has_like(a, b) == pre.has_like(a, b),
        forall|a: u64, b: u64|
            !(a == pre.likes@[ix].user && b == pre.likes@[ix].post_id) && pre.has_like(a, b)
                ==> #[trigger] post.like_edge(a, b) == pre.like_edge(a, b),
{
    pre.likes@.remove_ensures(ix);
    let e = pre.likes@[ix];
    assert forall|i: int, j: int| 0 <= i < j < post.likes@.len() implies !((
    #[trigger] post.likes@[i]).user == (#[trigger] post.likes@[j]).user && post.likes@[i].post_id
        == post.likes@[j].post_id) by {
        let i0 = if i < ix {
            i
        } else {
            i + 1
        };
        let j0 = if j < ix {
            j
        } else {
            j + 1
        };
        assert(post.likes@[i] == pre.likes@[i0]);
        assert(post.likes@[j] == pre.likes@[j0]);
        assert(!(pre.likes@[i0].user == pre.likes@[j0].user && pre.likes@[i0].post_id
            == pre.likes@[j0].post_id));
    }
    assert(!post.has_like(e.user, e.post_id)) by {
        if post.has_like(e.user, e.post_id) {
            let w = choose|i: int|
                0 <= i < post.likes@.len() && (#[trigger] post.likes@[i]).user == e.user
                    && post.likes@[i].post_id == e.post_id;
            let w0 = if w < ix {
                w
            } else {
                w + 1
            };
            assert(pre.likes@[w0] == post.likes@[w]);
            assert(w0 != ix);
            assert(!(pre.likes@[w0].user == pre.likes@[ix].user && pre.likes@[w0].post_id
                == pre.likes@[ix].post_id));
        }
    }
    assert forall|a: u64, b: u64| !(a == e.user && b == e.post_id) implies
        #[trigger] post.has_like(a, b) == pre.has_like(a, b) by {
        if pre.has_like(a, b) {
            pre.lemma_like_ix(a, b);
            let w = pre.like_ix(a, b);
            assert(w != ix);
            let w1 = if w < ix {
                w
            } else {
                w - 1
            };
            assert(post.likes@[w1] == pre.likes@[w]);
            assert(post.likes@[w1].user == a && post.likes@[w1].post_id == b);
        }
        if post.has_like(a, b) {
            let w = choose|i: int|
                0 <= i < post.likes@.len() && (#[trigger] post.likes@[i]).user == a
                    && post.likes@[i].post_id == b;
            let w0 = if w < ix {
                w
            } else {
                w + 1
            };
            assert(pre.likes@[w0] == post.likes@[w]);
        }
    }
    assert forall|a: u64, b: u64| !(a == e.user && b == e.post_id) && pre.has_like(a, b) implies
        #[trigger] post.like_edge(a, b) == pre.like_edge(a, b) by {
        pre.lemma_like_ix(a, b);
        post.lemma_like_ix(a, b);
        let w = pre.like_ix(a, b);
        assert(w != ix);
        let w1 = if w < ix {
            w
        } else {
            w - 1
        };
        assert(post.likes@[w1] == pre.likes@[w]);
        assert(post.likes@[w1].user == a && post.likes@[w1].post_id == b);
        assert(post.like_ix(a, b) == w1);
    }
}

/// Pushing a donation record for a fresh pair logs that pair alone.
pub proof fn lemma_donations_pushed(pre: Ledger, post: Ledger, d: Donation)
    requires
        pre.donations_unique(),
        !pre.has_donation(d.donor, d.recipient),
        post.donations@ == pre.donations@.push(d),
    ensures
        post.donations_unique(),
        post.has_donation(d.donor, d.recipient),
        post.donation(d.donor, d.recipient) == d,
        forall|a: u64, b: u64|
            !(a == d.donor && b == d.recipient) ==> #[trigger] post.has_donation(a, b)
                == pre.has_donation(a, b),
        forall|a: u64, b: u64|
            !(a == d.donor && b == d.recipient) && pre.has_donation(a, b)
                ==> #[trigger] post.donation(a, b) == pre.donation(a, b),
{
    let n = pre.donations@.len() as int;
    assert(post.donations@[n] == d);
    assert forall|i: int, j: int| 0 <= i < j < post.donations@.len() implies !((
    #[trigger] post.donations@[i]).donor == (#[trigger] post.donations@[j]).donor
        && post.donations@[i].recipient == post.donations@[j].recipient) by {
        if j < n {
            assert(!(pre.donations@[i].donor == pre.donations@[j].donor
                && pre.donations@[i].recipient == pre.donations@[j].recipient));
        } else {
            assert(post.donations@[j] == d);
            assert(post.donations@[i] == pre.donations@[i]);
            if post.donations@[i].donor == d.donor && post.donations@[i].recipient
                == d.recipient {
                assert(pre.has_donation(d.donor, d.recipient));
            }
        }
    }
    assert(post.has_donation(d.donor, d.recipient)) by {
        assert(post.donations@[n].donor == d.donor && post.donations@[n].recipient
            == d.recipient);
    }
    post.lemma_donation_ix(d.donor, d.recipient);
    assert(post.donation_ix(d.donor, d.recipient) == n);
    assert forall|a: u64, b: u64| !(a == d.donor && b == d.recipient) implies
        #[trigger] post.has_donation(a, b) == pre.has_donation(a, b) by {
        if pre.has_donation(a, b) {
            let w = choose|i: int|
                0 <= i < pre.donations@.len() && (#[trigger] pre.donations@[i]).donor == a
                    && pre.donations@[i].recipient == b;
            assert(post.donations@[w].donor == a && post.donations@[w].recipient == b);
        }
        if post.has_donation(a, b) {
            let w = choose|i: int|
                0 <= i < post.donations@.len() && (#[trigger] post.donations@[i]).donor == a
                    && post.donations@[i].recipient == b;
            assert(w != n);
            assert(pre.donations@[w].donor == a && pre.donations@[w].recipient == b);
        }
    }
    assert forall|a: u64, b: u64|
        !(a == d.donor && b == d.recipient) && pre.has_donation(a, b) implies
        #[trigger] post.donation(a, b) == pre.donation(a, b) by {
        pre.lemma_donation_ix(a, b);
        post.lemma_donation_ix(a, b);
        let w = pre.donation_ix(a, b);
        assert(post.donations@[w].donor == a && post.donations@[w].recipient == b);
        assert(post.donation_ix(a, b) == w);
    }
}

/// Replacing a donation record in place, pair kept, changes that pair's
/// log entry alone.
pub proof fn lemma_donations_updated(pre: Ledger, post: Ledger, ix: int, d: Donation)
    requires
        pre.donations_unique(),
        0 <= ix < pre.donations@.len(),
        d.donor == pre.donations@[ix].donor,
        d.recipient == pre.donations@[ix].recipient,
        post.donations@ == pre.donations@.update(ix, d),
    ensures
        post.donations_unique(),
        forall|a: u64, b: u64| #[trigger] post.has_donation(a, b) == pre.has_donation(a, b),
        post.has_donation(d.donor, d.recipient),
        post.donation(d.donor, d.recipient) == d,
        forall|a: u64, b: u64|
            !(a == d.donor && b == d.recipient) && pre.has_donation(a, b)
                ==> #[trigger] post.donation(a, b) == pre.donation(a, b),
{
    assert(pre.has_donation(d.donor, d.recipient)) by {
        assert(pre.donations@[ix].donor == d.donor && pre.donations@[ix].recipient
            == d.recipient);
    }
    pre.lemma_donation_ix(d.donor, d.recipient);
    assert(pre.donation_ix(d.donor, d.recipient) == ix);
    assert forall|i: int, j: int| 0 <= i < j < post.donations@.len() implies !((
    #[trigger] post.donations@[i]).donor == (#[trigger] post.donations@[j]).donor
        && post.donations@[i].recipient == post.donations@[j].recipient) by {
        assert(post.donations@[i].donor == pre.donations@[i].donor && post.donations@[i].recipient
            == pre.donations@[i].recipient);
        assert(post.donations@[j].donor == pre.donations@[j].donor && post.donations@[j].recipient
            == pre.donations@[j].recipient);
        assert(!(pre.donations@[i].donor == pre.donations@[j].donor
            && pre.donations@[i].recipient == pre.donations@[j].recipient));
    }
    assert forall|a: u64, b: u64| #[trigger] post.has_donation(a, b) == pre.has_donation(
        a,
        b,
    ) by {
        if pre.has_donation(a, b) {
            let w = choose|i: int|
                0 <= i < pre.donations@.len() && (#[trigger] pre.donations@[i]).donor == a
                    && pre.donations@[i].recipient == b;
            assert(post.donations@[w].donor == a && post.donations@[w].recipient == b);
        }
        if post.has_donation(a, b) {
            let w = choose|i: int|
                0 <= i < post.donations@.len() && (#[trigger] post.donations@[i]).donor == a
                    && post.donations@[i].recipient == b;
            assert(pre.donations@[w].donor == a && pre.donations@[w].recipient == b);
        }
    }
    assert(post.donations@[ix].donor == d.donor && post.donations@[ix].recipient == d.recipient);
    post.lemma_donation_ix(d.donor, d.recipient);
    assert(post.donation_ix(d.donor, d.recipient) == ix);
    assert forall|a: u64, b: u64|
        !(a == d.donor && b == d.recipient) && pre.has_donation(a, b) implies
        #[trigger] post.donation(a, b) == pre.donation(a, b) by {
        pre.lemma_donation_ix(a, b);
        post.lemma_donation_ix(a, b);
        let w = pre.donation_ix(a, b);
        assert(w != ix);
        assert(post.donations@[w].donor == a && post.donations@[w].recipient == b);
        assert(post.donation_ix(a, b) == w);
    }
}

/// Profile existence depends on the profile collection alone.
pub proof fn lemma_same_profiles_same_has(pre: Ledger, post: Ledger)
    requires
        post.profiles@ == pre.profiles@,
    ensures
        forall|k: u64| #[trigger] post.has_profile(k) == pre.has_profile(k),
{
    assert forall|k: u64| #[trigger] post.has_profile(k) == pre.has_profile(k) by {
        if pre.has_profile(k) {
            let w = choose|i: int|
                0 <= i < pre.profiles@.len() && (#[trigger] pre.profiles@[i]).owner == k;
            assert(post.profiles@[w].owner == k);
        }
        if post.has_profile(k) {
            let w = choose|i: int|
                0 <= i < post.profiles@.len() && (#[trigger] post.profiles@[i]).owner == k;
            assert(pre.profiles@[w].owner == k);
        }
    }
}

/// Pushing a profile for a fresh owner adds that owner's profile and leaves
/// every other owner's untouched.
pub proof fn lemma_profiles_pushed(pre: Ledger, post: Ledger, p: UserProfile)
    requires
        pre.profiles_unique(),
        !pre.has_profile(p.owner),
        post.profiles@ == pre.profiles@.push(p),
    ensures
        post.profiles_unique(),
        post.has_profile(p.owner),
        post.profile_ix(p.owner) == pre.profiles@.len(),
        post.profile(p.owner) == p,
        forall|k: u64| k != p.owner ==> #[trigger] post.has_profile(k) == pre.has_profile(k),
        forall|k: u64|
            k != p.owner && pre.has_profile(k) ==> #[trigger] post.profile(k) == pre.profile(k)
                && post.profile_ix(k) == pre.profile_ix(k),
        forall|k: u64| pre.has_profile(k) ==> #[trigger] post.has_profile(k),
{
    let n = pre.profiles@.len() as int;
    assert(post.profiles@[n] == p);
    assert forall|i: int, j: int| 0 <= i < j < post.profiles@.len() implies (
    #[trigger] post.profiles@[i]).owner != (#[trigger] post.profiles@[j]).owner by {
        if j < n {
            assert(pre.profiles@[i].owner != pre.profiles@[j].owner);
        } else {
            assert(post.profiles@[j] == p);
            assert(post.profiles@[i] == pre.profiles@[i]);
            if post.profiles@[i].owner == p.owner {
                assert(pre.has_profile(p.owner));
            }
        }
    }
    assert(post.has_profile(p.owner)) by {
        assert(post.profiles@[n].owner == p.owner);
    }
    assert forall|i: int, j: int|
        0 <= i < post.profiles@.len() && 0 <= j < post.profiles@.len() && (
        #[trigger] post.profiles@[i]).owner == (#[trigger] post.profiles@[j]).owner implies i
        == j by {}
    assert(0 <= post.profile_ix(p.owner) < post.profiles@.len() && post.profiles@[post.profile_ix(
        p.owner,
    )].owner == p.owner);
    assert(post.profile_ix(p.owner) == n);
    assert forall|k: u64| k != p.owner implies #[trigger] post.has_profile(k) == pre.has_profile(
        k,
    ) by {
        if pre.has_profile(k) {
            let w = choose|i: int|
                0 <= i < pre.profiles@.len() && (#[trigger] pre.profiles@[i]).owner == k;
            assert(post.profiles@[w].owner == k);
        }
        if post.has_profile(k) {
            let w = choose|i: int|
                0 <= i < post.profiles@.len() && (#[trigger] post.profiles@[i]).owner == k;
            assert(w != n);
            assert(pre.profiles@[w].owner == k);
        }
    }
    assert forall|k: u64| k != p.owner && pre.has_profile(k) implies #[trigger] post.profile(k)
        == pre.profile(k) && post.profile_ix(k) == pre.profile_ix(k) by {
        pre.lemma_profile_ix(k);
        let w = pre.profile_ix(k);
        assert(post.profiles@[w].owner == k);
        assert(0 <= post.profile_ix(k) < post.profiles@.len() && post.profiles@[post.profile_ix(
            k,
        )].owner == k);
        assert(post.profile_ix(k) == w);
    }
    assert forall|k: u64| pre.has_profile(k) implies #[trigger] post.has_profile(k) by {
        if k != p.owner {
            assert(post.has_profile(k) == pre.has_profile(k));
        }
    }
}

/// Replacing a profile in place, owner kept, changes that owner's profile
/// alone.
pub proof fn lemma_profiles_updated(pre: Ledger, post: Ledger, ix: int, p: UserProfile)
    requires
        pre.profiles_unique(),
        0 <= ix < pre.profiles@.len(),
        p.owner == pre.profiles@[ix].owner,
        post.profiles@ == pre.profiles@.update(ix, p),
    ensures
        post.profiles_unique(),
        forall|k: u64| #[trigger] post.has_profile(k) == pre.has_profile(k),
        post.has_profile(p.owner),
        post.profile_ix(p.owner) == ix,
        post.profile(p.owner) == p,
        pre.profile_ix(p.owner) == ix,
        forall|k: u64|
            k != p.owner && pre.has_profile(k) ==> #[trigger] post.profile(k) == pre.profile(k)
                && post.profile_ix(k) == pre.profile_ix(k),
{
    assert(pre.has_profile(p.owner)) by {
        assert(pre.profiles@[ix].owner == p.owner);
    }
    pre.lemma_profile_ix(p.owner);
    assert(pre.profile_ix(p.owner) == ix);
    assert forall|i: int, j: int| 0 <= i < j < post.profiles@.len() implies (
    #[trigger] post.profiles@[i]).owner != (#[trigger] post.profiles@[j]).owner by {
        assert(post.profiles@[i].owner == pre.profiles@[i].owner);
        assert(post.profiles@[j].owner == pre.profiles@[j].owner);
        assert(pre.profiles@[i].owner != pre.profiles@[j].owner);
    }
    assert forall|k: u64| #[trigger] post.has_profile(k) == pre.has_profile(k) by {
        if pre.has_profile(k) {
            let w = choose|i: int|
                0 <= i < pre.profiles@.len() && (#[trigger] pre.profiles@[i]).owner == k;
            assert(post.profiles@[w].owner == k);
        }
        if post.has_profile(k) {
            let w = choose|i: int|
                0 <= i < post.profiles@.len() && (#[trigger] post.profiles@[i]).owner == k;
            assert(pre.profiles@[w].owner == k);
        }
    }
    assert(post.has_profile(p.owner));
    assert forall|i: int, j: int|
        0 <= i < post.profiles@.len() && 0 <= j < post.profiles@.len() && (
        #[trigger] post.profiles@[i]).owner == (#[trigger] post.profiles@[j]).owner implies i
        == j by {}
    assert(post.profiles@[ix].owner == p.owner);
    assert(0 <= post.profile_ix(p.owner) < post.profiles@.len() && post.profiles@[post.profile_ix(
        p.owner,
    )].owner == p.owner);
    assert(post.profile_ix(p.owner) == ix);
    assert forall|k: u64| k != p.owner && pre.has_profile(k) implies #[trigger] post.profile(k)
        == pre.profile(k) && post.profile_ix(k) == pre.profile_ix(k) by {
        pre.lemma_profile_ix(k);
        let w = pre.profile_ix(k);
        assert(w != ix);
        assert(post.profiles@[w].owner == k);
        assert(0 <= post.profile_ix(k) < post.profiles@.len() && post.profiles@[post.profile_ix(
            k,
        )].owner == k);
        assert(post.profile_ix(k) == w);
    }
}

/// Profile accessors depend on the profile collection alone.
pub proof fn lemma_same_profiles_accessors(pre: Ledger, post: Ledger)
    requires
        pre.profiles_unique(),
        post.profiles@ == pre.profiles@,
    ensures
        post.profiles_unique(),
        forall|k: u64| #[trigger] post.has_profile(k) == pre.has_profile(k),
        forall|k: u64|
            pre.has_profile(k) ==> #[trigger] post.profile(k) == pre.profile(k)
                && post.profile_ix(k) == pre.profile_ix(k),
{
    lemma_same_profiles_same_has(pre, post);
    assert forall|k: u64| pre.has_profile(k) implies #[trigger] post.profile(k) == pre.profile(k)
        && post.profile_ix(k) == pre.profile_ix(k) by {
        pre.lemma_profile_ix(k);
        post.lemma_profile_ix(k);
        let w = pre.profile_ix(k);
        assert(post.profiles@[w].owner == k);
        assert(post.profile_ix(k) == w);
    }
}

/// Follow-edge accessors depend on the follow collection alone.
pub proof fn lemma_same_follows_accessors(pre: Ledger, post: Ledger)
    requires
        pre.follows_unique(),
        post.follows@ == pre.follows@,
    ensures
        post.follows_unique(),
        forall|a: u64, b: u64| #[trigger] post.has_follow(a, b) == pre.has_follow(a, b),
        forall|a: u64, b: u64|
            pre.has_follow(a, b) ==> #[trigger] post.follow_edge(a, b) == pre.follow_edge(a, b),
{
    assert forall|a: u64, b: u64| #[trigger] post.has_follow(a, b) == pre.has_follow(a, b) by {
        if pre.has_follow(a, b) {
            let w = choose|i: int|
                0 <= i < pre.follows@.len() && (#[trigger] pre.follows@[i]).follower == a
                    && pre.follows@[i].following == b;
            assert(post.follows@[w].follower == a && post.follows@[w].following == b);
        }
        if post.has_follow(a, b) {
            let w = choose|i: int|
                0 <= i < post.follows@.len() && (#[trigger] post.follows@[i]).follower == a
                    && post.follows@[i].following == b;
            assert(pre.follows@[w].follower == a && pre.follows@[w].following == b);
        }
    }
    assert forall|a: u64, b: u64| pre.has_follow(a, b) implies #[trigger] post.follow_edge(a, b)
        == pre.follow_edge(a, b) by {
        pre.lemma_follow_ix(a, b);
        post.lemma_follow_ix(a, b);
        let w = pre.follow_ix(a, b);
        assert(post.follows@[w].follower == a && post.follows@[w].following == b);
        assert(post.follow_ix(a, b) == w);
    }
}

/// Like-edge accessors depend on the like collection alone.
pub proof fn lemma_same_likes_accessors(pre: Ledger, post: Ledger)
    requires
        pre.likes_unique(),
        post.likes@ == pre.likes@,
    ensures
        post.likes_unique(),
        forall|a: u64, b: u64| #[trigger] post.has_like(a, b) == pre.has_like(a, b),
        forall|a: u64, b: u64|
            pre.has_like(a, b) ==> #[trigger] post.like_edge(a, b) == pre.like_edge(a, b),
{
    assert forall|a: u64, b: u64| #[trigger] post.has_like(a, b) == pre.has_like(a, b) by {
        if pre.has_like(a, b) {
            let w = choose|i: int|
                0 <= i < pre.likes@.len() && (#[trigger] pre.likes@[i]).user == a
                    && pre.likes@[i].post_id == b;
            assert(post.likes@[w].user == a && post.likes@[w].post_id == b);
        }
        if post.has_like(a, b) {
            let w = choose|i: int|
                0 <= i < post.likes@.len() && (#[trigger] post.likes@[i]).user == a
                    && post.likes@[i].post_id == b;
            assert(pre.likes@[w].user == a && pre.likes@[w].post_id == b);
        }
    }
    assert forall|a: u64, b: u64| pre.has_like(a, b) implies #[trigger] post.like_edge(a, b)
        == pre.like_edge(a, b) by {
        pre.lemma_like_ix(a, b);
        post.lemma_like_ix(a, b);
        let w = pre.like_ix(a, b);
        assert(post.likes@[w].user == a && post.likes@[w].post_id == b);
        assert(post.like_ix(a, b) == w);
    }
}

/// Donation accessors depend on the donation collection alone.
pub proof fn lemma_same_donations_accessors(pre: Ledger, post: Ledger)
    requires
        pre.donations_unique(),
        post.donations@ == pre.donations@,
    ensures
        post.donations_unique(),
        forall|a: u64, b: u64| #[trigger] post.has_donation(a, b) == pre.has_donation(a, b),
        forall|a: u64, b: u64|
            pre.has_donation(a, b) ==> #[trigger] post.donation(a, b) == pre.donation(a, b),
{
    assert forall|a: u64, b: u64| #[trigger] post.has_donation(a, b) == pre.has_donation(
        a,
        b,
    ) by {
        if pre.has_donation(a, b) {
            let w = choose|i: int|
                0 <= i < pre.donations@.len() && (#[trigger] pre.donations@[i]).donor == a
                    && pre.donations@[i].recipient == b;
            assert(post.donations@[w].donor == a && post.donations@[w].recipient == b);
        }
        if post.has_donation(a, b) {
            let w = choose|i: int|
                0 <= i < post.donations@.len() && (#[trigger] post.donations@[i]).donor == a
                    && post.donations@[i].recipient == b;
            assert(pre.donations@[w].donor == a && pre.donations@[w].recipient == b);
        }
    }
    assert forall|a: u64, b: u64| pre.has_donation(a, b) implies #[trigger] post.donation(a, b)
        == pre.donation(a, b) by {
        pre.lemma_donation_ix(a, b);
        post.lemma_donation_ix(a, b);
        let w = pre.donation_ix(a, b);
        assert(post.donations@[w].donor == a && post.donations@[w].recipient == b);
        assert(post.donation_ix(a, b) == w);
    }
}

/// Balance accessors depend on the balance collection alone.
pub proof fn lemma_same_balances_accessors(pre: Ledger, post: Ledger)
    requires
        pre.balances_unique(),
        post.balances@ == pre.balances@,
    ensures
        post.balances_unique(),
        forall|k: u64| #[trigger] post.has_balance(k) == pre.has_balance(k),
        forall|k: u64| #[trigger] post.balance_of(k) == pre.balance_of(k),
{
    assert forall|k: u64| #[trigger] post.has_balance(k) == pre.has_balance(k) by {
        if pre.has_balance(k) {
            let w = choose|i: int|
                0 <= i < pre.balances@.len() && (#[trigger] pre.balances@[i]).owner == k;
            assert(post.balances@[w].owner == k);
        }
        if post.has_balance(k) {
            let w = choose|i: int|
                0 <= i < post.balances@.len() && (#[trigger] post.balances@[i]).owner == k;
            assert(pre.balances@[w].owner == k);
        }
    }
    assert forall|k: u64| #[trigger] post.balance_of(k) == pre.balance_of(k) by {
        if pre.has_balance(k) {
            pre.lemma_balance_ix(k);
            post.lemma_balance_ix(k);
            let w = pre.balance_ix(k);
            assert(post.balances@[w].owner == k);
            assert(post.balance_ix(k) == w);
        }
    }
}

/// Removing an element and inserting a new one at the same index is a
/// pointwise update.
pub proof fn lemma_remove_insert_is_update<T>(s: Seq<T>, i: int, v: T)
    requires
        0 <= i < s.len(),
    ensures
        s.remove(i).insert(i, v) == s.update(i, v),
{
    let a = s.remove(i).insert(i, v);
    let b = s.update(i, v);
    assert forall|k: int| 0 <= k < b.len() implies a[k] == b[k] by {}
    assert(a =~= b);
}

/// Updating a balance record in place, owner kept, moves `balance_of` for
/// that owner alone.
pub proof fn lemma_balances_updated(pre: Ledger, post: Ledger, ix: int, b: Balance)
    requires
        pre.balances_unique(),
        0 <= ix < pre.balances@.len(),
        b.owner == pre.balances@[ix].owner,
        post.balances@ == pre.balances@.update(ix, b),
    ensures
        post.balances_unique(),
        forall|k: u64| #[trigger] post.has_balance(k) == pre.has_balance(k),
        post.balance_of(b.owner) == b.amount,
        forall|k: u64| k != b.owner ==> #[trigger] post.balance_of(k) == pre.balance_of(k),
{
    assert forall|i: int, j: int| 0 <= i < j < post.balances@.len() implies (
    #[trigger] post.balances@[i]).owner != (#[trigger] post.balances@[j]).owner by {
        assert(pre.balances@[i].owner != pre.balances@[j].owner);
        assert(post.balances@[i].owner == pre.balances@[i].owner);
        assert(post.balances@[j].owner == pre.balances@[j].owner);
    }
    assert forall|k: u64| #[trigger] post.has_balance(k) == pre.has_balance(k) by {
        assert forall|i: int| 0 <= i < post.balances@.len() implies (
        #[trigger] post.balances@[i]).owner == (#[trigger] pre.balances@[i]).owner by {}
        if pre.has_balance(k) {
            let w = pre.balance_ix(k);
            assert(post.balances@[w].owner == k);
        }
        if post.has_balance(k) {
            let w = post.balance_ix(k);
            assert(pre.balances@[w].owner == k);
        }
    }
    assert(post.has_balance(b.owner)) by {
        assert(post.balances@[ix].owner == b.owner);
    }
    post.lemma_balance_ix(b.owner);
    assert(post.balance_ix(b.owner) == ix);
    assert forall|k: u64| k != b.owner implies #[trigger] post.balance_of(k) == pre.balance_of(
        k,
    ) by {
        if pre.has_balance(k) {
            pre.lemma_balance_ix(k);
            post.lemma_balance_ix(k);
            let w = pre.balance_ix(k);
            assert(post.balances@[w].owner == k);
            assert(post.balance_ix(k) == w);
        }
    }
}

/// Pushing a balance record for a fresh owner credits that owner alone.
pub proof fn lemma_balances_pushed(pre: Ledger, post: Ledger, b: Balance)
    requires
        pre.balances_unique(),
        !pre.has_balance(b.owner),
        post.balances@ == pre.balances@.push(b),
    ensures
        post.balances_unique(),
        post.has_balance(b.owner),
        post.balance_of(b.owner) == b.amount,
        forall|k: u64| k != b.owner ==> #[trigger] post.has_balance(k) == pre.has_balance(k),
        forall|k: u64| k != b.owner ==> #[trigger] post.balance_of(k) == pre.balance_of(k),
{
    let n = pre.balances@.len() as int;
    assert(post.balances@[n] == b);
    assert forall|i: int, j: int| 0 <= i < j < post.balances@.len() implies (
    #[trigger] post.balances@[i]).owner != (#[trigger] post.balances@[j]).owner by {
        if j < n {
            assert(pre.balances@[i].owner != pre.balances@[j].owner);
        } else {
            assert(post.balances@[j] == b);
            assert(post.balances@[i] == pre.balances@[i]);
            if post.balances@[i].owner == b.owner {
                assert(pre.has_balance(b.owner));
            }
        }
    }
    assert(post.has_balance(b.owner)) by {
        assert(post.balances@[n].owner == b.owner);
    }
    post.lemma_balance_ix(b.owner);
    assert(post.balance_ix(b.owner) == n);
    assert forall|k: u64| k != b.owner implies #[trigger] post.has_balance(k) == pre.has_balance(
        k,
    ) by {
        if pre.has_balance(k) {
            let w = pre.balance_ix(k);
            assert(post.balances@[w].owner == k);
        }
        if post.has_balance(k) {
            let w = post.balance_ix(k);
            assert(w != n);
            assert(pre.balances@[w].owner == k);
        }
    }
    assert forall|k: u64| k != b.owner implies #[trigger] post.balance_of(k) == pre.balance_of(
        k,
    ) by {
        if pre.has_balance(k) {
            pre.lemma_balance_ix(k);
            post.lemma_balance_ix(k);
            let w = pre.balance_ix(k);
            assert(post.balances@[w].owner == k);
            assert(post.balance_ix(k) == w);
        }
    }
}

} // verus!
