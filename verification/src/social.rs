//! Relationship transitions: follow/unfollow edges between profiles and
//! like/unlike edges between a user and a post.

use vstd::prelude::*;
use crate::errors::ErrorCode;
use crate::ledger::{lemma_follows_pushed, lemma_follows_removed, lemma_likes_pushed,
    lemma_likes_removed, lemma_profiles_updated, lemma_remove_insert_is_update,
    lemma_same_follows_accessors, lemma_same_likes_accessors, lemma_same_profiles_same_has,
    sat_dec, Ledger};
use crate::states::{Follow, Like, Post, UserProfile};

verus! {

/// Exact effect of a successful `follow_user`: one fresh edge, the
/// follower's following counter and the target's followers counter each up
/// by one, everything else untouched.
pub open spec fn follow_applied(
    pre: Ledger,
    post: Ledger,
    follower: u64,
    target: u64,
    now: u64,
) -> bool {
    &&& follower != target
    &&& !pre.has_follow(follower, target)
    &&& pre.has_profile(follower)
    &&& pre.has_profile(target)
    &&& post.state == pre.state
    &&& post.follows@.len() == pre.follows@.len() + 1
    &&& post.has_follow(follower, target)
    &&& post.follow_edge(follower, target) == (Follow {
        follower,
        following: target,
        created_at: now,
    })
    &&& forall|a: u64, b: u64|
        !(a == follower && b == target) ==> #[trigger] post.has_follow(a, b) == pre.has_follow(
            a,
            b,
        )
    &&& forall|a: u64, b: u64|
        !(a == follower && b == target) && pre.has_follow(a, b) ==> #[trigger] post.follow_edge(
            a,
            b,
        ) == pre.follow_edge(a, b)
    &&& post.profiles@.len() == pre.profiles@.len()
    &&& forall|k: u64| #[trigger] post.has_profile(k) == pre.has_profile(k)
    &&& post.profile(follower) == (UserProfile {
        following_count: (pre.profile(follower).following_count + 1) as u64,
        ..pre.profile(follower)
    })
    &&& post.profile(target) == (UserProfile {
        followers_count: (pre.profile(target).followers_count + 1) as u64,
        ..pre.profile(target)
    })
    &&& forall|k: u64|
        k != follower && k != target && pre.has_profile(k) ==> #[trigger] post.profile(k)
            == pre.profile(k)
    &&& post.posts@ == pre.posts@
    &&& post.comments@ == pre.comments@
    &&& post.likes@ == pre.likes@
    &&& post.donations@ == pre.donations@
    &&& post.balances@ == pre.balances@
}

/// Exact effect of a successful `unfollow_user`: the edge is destroyed and
/// both counters drop, saturating at zero.
pub open spec fn unfollow_applied(pre: Ledger, post: Ledger, follower: u64, target: u64) -> bool {
    &&& pre.has_follow(follower, target)
    &&& pre.has_profile(follower)
    &&& pre.has_profile(target)
    &&& post.state == pre.state
    &&& post.follows@.len() == pre.follows@.len() - 1
    &&& !post.has_follow(follower, target)
    &&& forall|a: u64, b: u64|
        !(a == follower && b == target) ==> #[trigger] post.has_follow(a, b) == pre.has_follow(
            a,
            b,
        )
    &&& forall|a: u64, b: u64|
        !(a == follower && b == target) && pre.has_follow(a, b) ==> #[trigger] post.follow_edge(
            a,
            b,
        ) == pre.follow_edge(a, b)
    &&& post.profiles@.len() == pre.profiles@.len()
    &&& forall|k: u64| #[trigger] post.has_profile(k) == pre.has_profile(k)
    &&& post.profile(follower) == (UserProfile {
        following_count: sat_dec(pre.profile(follower).following_count),
        ..pre.profile(follower)
    })
    &&& post.profile(target) == (UserProfile {
        followers_count: sat_dec(pre.profile(target).followers_count),
        ..pre.profile(target)
    })
    &&& forall|k: u64|
        k != follower && k != target && pre.has_profile(k) ==> #[trigger] post.profile(k)
            == pre.profile(k)
    &&& post.posts@ == pre.posts@
    &&& post.comments@ == pre.comments@
    &&& post.likes@ == pre.likes@
    &&& post.donations@ == pre.donations@
    &&& post.balances@ == pre.balances@
}

/// Exact effect of a successful `like_post`: one fresh edge and the post's
/// like counter up by one, everything else untouched.
pub open spec fn like_applied(
    pre: Ledger,
    post: Ledger,
    user: u64,
    post_id: u64,
    now: u64,
) -> bool {
    &&& pre.has_post(post_id)
    &&& !pre.post(post_id).is_deleted
    &&& !pre.has_like(user, post_id)
    &&& post.state == pre.state
    &&& post.posts@ == pre.posts@.update(
        post_id as int - 1,
        Post { likes_count: (pre.post(post_id).likes_count + 1) as u64, ..pre.post(post_id) },
    )
    &&& post.likes@.len() == pre.likes@.len() + 1
    &&& post.has_like(user, post_id)
    &&& post.like_edge(user, post_id) == (Like { user, post_id, created_at: now })
    &&& forall|a: u64, b: u64|
        !(a == user && b == post_id) ==> #[trigger] post.has_like(a, b) == pre.has_like(a, b)
    &&& forall|a: u64, b: u64|
        !(a == user && b == post_id) && pre.has_like(a, b) ==> #[trigger] post.like_edge(a, b)
            == pre.like_edge(a, b)
    &&& post.profiles@ == pre.profiles@
    &&& post.comments@ == pre.comments@
    &&& post.follows@ == pre.follows@
    &&& post.donations@ == pre.donations@
    &&& post.balances@ == pre.balances@
}

/// Exact effect of a successful `unlike_post`: the edge is destroyed and
/// the post's like counter drops, saturating at zero.
pub open spec fn unlike_applied(pre: Ledger, post: Ledger, user: u64, post_id: u64) -> bool {
    &&& pre.has_like(user, post_id)
    &&& pre.has_post(post_id)
    &&& post.state == pre.state
    &&& post.posts@ == pre.posts@.update(
        post_id as int - 1,
        Post { likes_count: sat_dec(pre.post(post_id).likes_count), ..pre.post(post_id) },
    )
    &&& post.likes@.len() == pre.likes@.len() - 1
    &&& !post.has_like(user, post_id)
    &&& forall|a: u64, b: u64|
        !(a == user && b == post_id) ==> #[trigger] post.has_like(a, b) == pre.has_like(a, b)
    &&& forall|a: u64, b: u64|
        !(a == user && b == post_id) && pre.has_like(a, b) ==> #[trigger] post.like_edge(a, b)
            == pre.like_edge(a, b)
    &&& post.profiles@ == pre.profiles@
    &&& post.comments@ == pre.comments@
    &&& post.follows@ == pre.follows@
    &&& post.donations@ == pre.donations@
    &&& post.balances@ == pre.balances@
}

impl Ledger {
    /// Activates a follow relationship from the caller to the target,
    /// crediting both profiles' counters.
    pub fn follow_user(&mut self, follower: u64, target_user: u64, now: u64) -> (r: Result<
        (),
        ErrorCode,
    >)
        requires
            old(self).wf(),
            old(self).state.initialized,
            old(self).has_profile(follower) ==> old(self).profile(follower).following_count
                < u64::MAX,
            old(self).has_profile(target_user) ==> old(self).profile(target_user).followers_count
                < u64::MAX,
        ensures
            final(self).wf(),
            (r matches Err(ErrorCode::CannotFollowSelf)) <==> follower == target_user,
            (r matches Err(ErrorCode::AlreadyFollowing)) <==> follower != target_user && old(
                self,
            ).has_follow(follower, target_user),
            (r matches Err(ErrorCode::ProfileNotFound)) <==> follower != target_user && !old(
                self,
            ).has_follow(follower, target_user) && (!old(self).has_profile(follower) || !old(
                self,
            ).has_profile(target_user)),
            r is Ok <==> follower != target_user && !old(self).has_follow(follower, target_user)
                && old(self).has_profile(follower) && old(self).has_profile(target_user),
            r is Err ==> *final(self) == *old(self),
            r is Ok ==> follow_applied(*old(self), *final(self), follower, target_user, now),
    {
        if follower == target_user {
            return Err(ErrorCode::CannotFollowSelf);
        }
        match self.find_follow(follower, target_user) {
            Some(i) => {
                proof {
                    assert(old(self).follows@[i as int].follower == follower);
                }
                return Err(ErrorCode::AlreadyFollowing);
            },
            None => {},
        }
        let fix = match self.find_profile(follower) {
            Some(i) => i,
            None => {
                return Err(ErrorCode::ProfileNotFound);
            },
        };
        let tix = match self.find_profile(target_user) {
            Some(i) => i,
            None => {
                return Err(ErrorCode::ProfileNotFound);
            },
        };
        proof {
            old(self).lemma_profile_ix(follower);
            old(self).lemma_profile_ix(target_user);
            assert(fix as int == old(self).profile_ix(follower));
            assert(tix as int == old(self).profile_ix(target_user));
            assert(fix != tix);
        }
        let edge = Follow { follower, following: target_user, created_at: now };
        self.follows.push(edge);
        let ghost mid0 = *self;
        proof {
            lemma_follows_pushed(*old(self), mid0, edge);
        }
        let mut fp = self.profiles.remove(fix);
        fp.following_count = fp.following_count + 1;
        let ghost gfp = fp;
        self.profiles.insert(fix, fp);
        let ghost mid1 = *self;
        proof {
            lemma_remove_insert_is_update(old(self).profiles@, fix as int, gfp);
            lemma_profiles_updated(*old(self), mid1, fix as int, gfp);
        }
        let mut tp = self.profiles.remove(tix);
        tp.followers_count = tp.followers_count + 1;
        let ghost gtp = tp;
        self.profiles.insert(tix, tp);
        proof {
            lemma_remove_insert_is_update(mid1.profiles@, tix as int, gtp);
            lemma_profiles_updated(mid1, *self, tix as int, gtp);
            lemma_same_follows_accessors(mid0, *self);
        }
        Ok(())
    }

    /// Destroys the caller's follow relationship to the target, dropping
    /// both counters (saturating).
    pub fn unfollow_user(&mut self, follower: u64, target_user: u64) -> (r: Result<
        (),
        ErrorCode,
    >)
        requires
            old(self).wf(),
            old(self).state.initialized,
        ensures
            final(self).wf(),
            (r matches Err(ErrorCode::NotFollowing)) <==> !old(self).has_follow(
                follower,
                target_user,
            ),
            r is Ok <==> old(self).has_follow(follower, target_user),
            r is Err ==> *final(self) == *old(self),
            r is Ok ==> unfollow_applied(*old(self), *final(self), follower, target_user),
    {
        let eix = match self.find_follow(follower, target_user) {
            Some(i) => i,
            None => {
                return Err(ErrorCode::NotFollowing);
            },
        };
        proof {
            assert(old(self).follows@[eix as int].follower == follower);
            assert(old(self).has_follow(follower, target_user));
            assert(old(self).has_profile(follower));
            assert(old(self).has_profile(target_user));
            assert(follower != target_user);
        }
        let fix = match self.find_profile(follower) {
            Some(i) => i,
            None => {
                proof {
                    assert(false);
                }
                return Err(ErrorCode::NotFollowing);
            },
        };
        let tix = match self.find_profile(target_user) {
            Some(i) => i,
            None => {
                proof {
                    assert(false);
                }
                return Err(ErrorCode::NotFollowing);
            },
        };
        proof {
            old(self).lemma_profile_ix(follower);
            old(self).lemma_profile_ix(target_user);
            assert(fix != tix);
        }
        self.follows.remove(eix);
        let ghost mid0 = *self;
        proof {
            lemma_follows_removed(*old(self), mid0, eix as int);
        }
        let mut fp = self.profiles.remove(fix);
        fp.following_count = if fp.following_count > 0 {
            fp.following_count - 1
        } else {
            0
        };
        let ghost gfp = fp;
        self.profiles.insert(fix, fp);
        let ghost mid1 = *self;
        proof {
            lemma_remove_insert_is_update(old(self).profiles@, fix as int, gfp);
            lemma_profiles_updated(*old(self), mid1, fix as int, gfp);
        }
        let mut tp = self.profiles.remove(tix);
        tp.followers_count = if tp.followers_count > 0 {
            tp.followers_count - 1
        } else {
            0
        };
        let ghost gtp = tp;
        self.profiles.insert(tix, tp);
        proof {
            lemma_remove_insert_is_update(mid1.profiles@, tix as int, gtp);
            lemma_profiles_updated(mid1, *self, tix as int, gtp);
            lemma_same_follows_accessors(mid0, *self);
            assert forall|i: int|
                0 <= i < self.follows@.len() implies self.has_profile(
                (#[trigger] self.follows@[i]).follower,
            ) && self.has_profile(self.follows@[i].following) by {
                let i0 = if i < eix as int {
                    i
                } else {
                    i + 1
                };
                assert(self.follows@[i] == old(self).follows@[i0]);
                assert(old(self).has_profile(old(self).follows@[i0].follower));
                assert(old(self).has_profile(old(self).follows@[i0].following));
            }
        }
        Ok(())
    }

    /// Activates a like edge from the caller to a live post, crediting the
    /// post's like counter.
    pub fn like_post(&mut self, user: u64, post_id: u64, now: u64) -> (r: Result<(), ErrorCode>)
        requires
            old(self).wf(),
            old(self).state.initialized,
            old(self).has_post(post_id) ==> old(self).post(post_id).likes_count < u64::MAX,
        ensures
            final(self).wf(),
            (r matches Err(ErrorCode::AlreadyLiked)) <==> old(self).has_like(user, post_id),
            (r matches Err(ErrorCode::PostNotFound)) <==> !old(self).has_like(user, post_id)
                && !old(self).has_post(post_id),
            (r matches Err(ErrorCode::PostDeleted)) <==> !old(self).has_like(user, post_id)
                && old(self).has_post(post_id) && old(self).post(post_id).is_deleted,
            r is Ok <==> !old(self).has_like(user, post_id) && old(self).has_post(post_id)
                && !old(self).post(post_id).is_deleted,
            r is Err ==> *final(self) == *old(self),
            r is Ok ==> like_applied(*old(self), *final(self), user, post_id, now),
    {
        match self.find_like(user, post_id) {
            Some(i) => {
                proof {
                    assert(old(self).likes@[i as int].user == user);
                }
                return Err(ErrorCode::AlreadyLiked);
            },
            None => {},
        }
        let n = self.posts.len();
        if post_id < 1 || post_id > n as u64 {
            return Err(ErrorCode::PostNotFound);
        }
        let pix = (post_id - 1) as usize;
        if self.posts[pix].is_deleted {
            return Err(ErrorCode::PostDeleted);
        }
        let edge = Like { user, post_id, created_at: now };
        self.likes.push(edge);
        let ghost mid0 = *self;
        proof {
            lemma_likes_pushed(*old(self), mid0, edge);
        }
        let mut p = self.posts.remove(pix);
        p.likes_count = p.likes_count + 1;
        let ghost gpost = p;
        self.posts.insert(pix, p);
        proof {
            lemma_remove_insert_is_update(old(self).posts@, pix as int, gpost);
            lemma_same_likes_accessors(mid0, *self);
            lemma_same_profiles_same_has(*old(self), *self);
        }
        Ok(())
    }

    /// Destroys the caller's like edge for a post, dropping the post's
    /// like counter (saturating).
    pub fn unlike_post(&mut self, user: u64, post_id: u64) -> (r: Result<(), ErrorCode>)
        requires
            old(self).wf(),
            old(self).state.initialized,
        ensures
            final(self).wf(),
            (r matches Err(ErrorCode::NotLiked)) <==> !old(self).has_like(user, post_id),
            (r matches Err(ErrorCode::PostNotFound)) <==> old(self).has_like(user, post_id)
                && !old(self).has_post(post_id),
            r is Ok <==> old(self).has_like(user, post_id) && old(self).has_post(post_id),
            r is Err ==> *final(self) == *old(self),
            r is Ok ==> unlike_applied(*old(self), *final(self), user, post_id),
    {
        let eix = match self.find_like(user, post_id) {
            Some(i) => i,
            None => {
                return Err(ErrorCode::NotLiked);
            },
        };
        proof {
            assert(old(self).likes@[eix as int].user == user);
            assert(old(self).has_like(user, post_id));
        }
        let n = self.posts.len();
        if post_id < 1 || post_id > n as u64 {
            proof {
                assert(1 <= old(self).likes@[eix as int].post_id <= old(self).posts@.len());
                assert(false);
            }
            return Err(ErrorCode::PostNotFound);
        }
        let pix = (post_id - 1) as usize;
        self.likes.remove(eix);
        let ghost mid0 = *self;
        proof {
            lemma_likes_removed(*old(self), mid0, eix as int);
        }
        let mut p = self.posts.remove(pix);
        p.likes_count = if p.likes_count > 0 {
            p.likes_count - 1
        } else {
            0
        };
        let ghost gpost = p;
        self.posts.insert(pix, p);
        proof {
            lemma_remove_insert_is_update(old(self).posts@, pix as int, gpost);
            lemma_same_likes_accessors(mid0, *self);
            lemma_same_profiles_same_has(*old(self), *self);
            assert forall|i: int|
                0 <= i < self.likes@.len() implies 1 <= (#[trigger] self.likes@[i]).post_id
                <= self.posts@.len() by {
                let i0 = if i < eix as int {
                    i
                } else {
                    i + 1
                };
                assert(self.likes@[i] == old(self).likes@[i0]);
                assert(1 <= old(self).likes@[i0].post_id <= old(self).posts@.len());
            }
        }
        Ok(())
    }
}

} // verus!
