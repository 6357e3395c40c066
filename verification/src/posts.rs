//! Post transitions: single-author creation, collaboration creation, and
//! soft deletion.

use vstd::prelude::*;
use crate::constants::{MAX_IMAGE_URL_LENGTH, MAX_POST_CONTENT_LENGTH};
use crate::errors::ErrorCode;
use crate::ledger::{lemma_profiles_updated, lemma_remove_insert_is_update,
    lemma_same_profiles_same_has, sat_dec, Ledger};
use crate::profiles::opt_too_long;
use crate::states::{Post, ProgramState, UserProfile};
use crate::validation::{check_image_url, check_post_content};

verus! {

/// Exact effect of a successful post creation, shared by the single-author
/// and the collaboration flavour: the next post id is allocated, the author
/// alone gains a live post, everything else is untouched.
pub open spec fn post_created(
    pre: Ledger,
    post: Ledger,
    author: u64,
    collaborator: Option<u64>,
    content: Vec<u8>,
    image_url: Option<Vec<u8>>,
    now: u64,
) -> bool {
    &&& pre.has_profile(author)
    &&& post.state == (ProgramState {
        post_count: (pre.state.post_count + 1) as u64,
        ..pre.state
    })
    &&& post.posts@ == pre.posts@.push(
        Post {
            post_id: (pre.state.post_count + 1) as u64,
            author,
            collaborator,
            content,
            image_url,
            likes_count: 0,
            comments_count: 0,
            created_at: now,
            updated_at: now,
            is_deleted: false,
            is_collaboration: collaborator is Some,
        },
    )
    &&& post.profiles@.len() == pre.profiles@.len()
    &&& post.has_profile(author)
    &&& post.profile(author) == (UserProfile {
        posts_count: (pre.profile(author).posts_count + 1) as u64,
        ..pre.profile(author)
    })
    &&& forall|k: u64| #[trigger] post.has_profile(k) == pre.has_profile(k)
    &&& forall|k: u64|
        k != author && pre.has_profile(k) ==> #[trigger] post.profile(k) == pre.profile(k)
    &&& post.comments@ == pre.comments@
    &&& post.follows@ == pre.follows@
    &&& post.likes@ == pre.likes@
    &&& post.donations@ == pre.donations@
    &&& post.balances@ == pre.balances@
}

/// Exact effect of a successful `delete_post`: the post is tombstoned with
/// a fresh update stamp, and only when the caller is the original author
/// does the author's live-post counter drop (saturating).
pub open spec fn delete_post_applied(
    pre: Ledger,
    post: Ledger,
    caller: u64,
    post_id: u64,
    now: u64,
) -> bool {
    &&& pre.has_post(post_id)
    &&& !pre.post(post_id).is_deleted
    &&& pre.has_profile(caller)
    &&& caller == pre.post(post_id).author || pre.post(post_id).collaborator == Some(caller)
    &&& post.state == pre.state
    &&& post.posts@ == pre.posts@.update(
        post_id as int - 1,
        Post { is_deleted: true, updated_at: now, ..pre.post(post_id) },
    )
    &&& post.profiles@.len() == pre.profiles@.len()
    &&& forall|k: u64| #[trigger] post.has_profile(k) == pre.has_profile(k)
    &&& if caller == pre.post(post_id).author {
        &&& post.profile(caller) == (UserProfile {
            posts_count: sat_dec(pre.profile(caller).posts_count),
            ..pre.profile(caller)
        })
        &&& forall|k: u64|
            k != caller && pre.has_profile(k) ==> #[trigger] post.profile(k) == pre.profile(k)
    } else {
        post.profiles@ == pre.profiles@
    }
    &&& post.comments@ == pre.comments@
    &&& post.follows@ == pre.follows@
    &&& post.likes@ == pre.likes@
    &&& post.donations@ == pre.donations@
    &&& post.balances@ == pre.balances@
}

impl Ledger {
    /// Creates a post for the caller, assigning the next post id and
    /// crediting the caller's live-post counter.
    pub fn create_post(
        &mut self,
        author: u64,
        content: Vec<u8>,
        image_url: Option<Vec<u8>>,
        now: u64,
    ) -> (r: Result<u64, ErrorCode>)
        requires
            old(self).wf(),
            old(self).state.initialized,
            old(self).state.post_count < u64::MAX,
        ensures
            final(self).wf(),
            (r matches Err(ErrorCode::ProfileNotFound)) <==> !old(self).has_profile(author),
            (r matches Err(ErrorCode::PostContentTooLong)) <==> old(self).has_profile(author)
                && content@.len() > MAX_POST_CONTENT_LENGTH,
            (r matches Err(ErrorCode::ImageUrlTooLong)) <==> old(self).has_profile(author)
                && content@.len() <= MAX_POST_CONTENT_LENGTH && opt_too_long(
                image_url,
                MAX_IMAGE_URL_LENGTH as int,
            ),
            r is Ok <==> old(self).has_profile(author) && content@.len()
                <= MAX_POST_CONTENT_LENGTH && !opt_too_long(image_url, MAX_IMAGE_URL_LENGTH as int),
            r is Err ==> *final(self) == *old(self),
            r matches Ok(pid) ==> pid == old(self).state.post_count + 1,
            r is Ok ==> post_created(*old(self), *final(self), author, None, content, image_url, now),
    {
        let aix = match self.find_profile(author) {
            Some(i) => i,
            None => {
                return Err(ErrorCode::ProfileNotFound);
            },
        };
        if let Err(e) = check_post_content(&content) {
            return Err(e);
        }
        match &image_url {
            Some(u) => {
                if let Err(e) = check_image_url(u) {
                    return Err(e);
                }
            },
            None => {},
        }
        proof {
            assert(old(self).profiles@[aix as int].posts_count <= old(self).state.post_count);
        }
        let post_id = self.state.post_count + 1;
        let mut prof = self.profiles.remove(aix);
        prof.posts_count = prof.posts_count + 1;
        let ghost gprof = prof;
        self.profiles.insert(aix, prof);
        let p = Post {
            post_id,
            author,
            collaborator: None,
            content,
            image_url,
            likes_count: 0,
            comments_count: 0,
            created_at: now,
            updated_at: now,
            is_deleted: false,
            is_collaboration: false,
        };
        self.posts.push(p);
        self.state.post_count = post_id;
        proof {
            lemma_remove_insert_is_update(old(self).profiles@, aix as int, gprof);
            lemma_profiles_updated(*old(self), *self, aix as int, gprof);
        }
        Ok(post_id)
    }

    /// Creates a two-author post: the collaborator must exist and differ
    /// from the author; only the author's live-post counter is credited.
    pub fn create_collaboration_post(
        &mut self,
        author: u64,
        collaborator: u64,
        content: Vec<u8>,
        image_url: Option<Vec<u8>>,
        now: u64,
    ) -> (r: Result<u64, ErrorCode>)
        requires
            old(self).wf(),
            old(self).state.initialized,
            old(self).state.post_count < u64::MAX,
        ensures
            final(self).wf(),
            (r matches Err(ErrorCode::ProfileNotFound)) <==> !old(self).has_profile(author),
            (r matches Err(ErrorCode::CollaboratorNotFound)) <==> old(self).has_profile(author)
                && !old(self).has_profile(collaborator),
            (r matches Err(ErrorCode::PostContentTooLong)) <==> old(self).has_profile(author)
                && old(self).has_profile(collaborator) && content@.len() > MAX_POST_CONTENT_LENGTH,
            (r matches Err(ErrorCode::ImageUrlTooLong)) <==> old(self).has_profile(author)
                && old(self).has_profile(collaborator) && content@.len()
                <= MAX_POST_CONTENT_LENGTH && opt_too_long(image_url, MAX_IMAGE_URL_LENGTH as int),
            (r matches Err(ErrorCode::CannotCollaborateWithSelf)) <==> old(self).has_profile(
                author,
            ) && old(self).has_profile(collaborator) && content@.len() <= MAX_POST_CONTENT_LENGTH
                && !opt_too_long(image_url, MAX_IMAGE_URL_LENGTH as int) && author == collaborator,
            r is Ok <==> old(self).has_profile(author) && old(self).has_profile(collaborator)
                && content@.len() <= MAX_POST_CONTENT_LENGTH && !opt_too_long(
                image_url,
                MAX_IMAGE_URL_LENGTH as int,
            ) && author != collaborator,
            r is Err ==> *final(self) == *old(self),
            r matches Ok(pid) ==> pid == old(self).state.post_count + 1,
            r is Ok ==> post_created(
                *old(self),
                *final(self),
                author,
                Some(collaborator),
                content,
                image_url,
                now,
            ),
    {
        let aix = match self.find_profile(author) {
            Some(i) => i,
            None => {
                return Err(ErrorCode::ProfileNotFound);
            },
        };
        match self.find_profile(collaborator) {
            Some(i) => {
                proof {
                    assert(old(self).profiles@[i as int].owner == collaborator);
                }
            },
            None => {
                return Err(ErrorCode::CollaboratorNotFound);
            },
        }
        if let Err(e) = check_post_content(&content) {
            return Err(e);
        }
        match &image_url {
            Some(u) => {
                if let Err(e) = check_image_url(u) {
                    return Err(e);
                }
            },
            None => {},
        }
        if author == collaborator {
            return Err(ErrorCode::CannotCollaborateWithSelf);
        }
        proof {
            assert(old(self).profiles@[aix as int].posts_count <= old(self).state.post_count);
        }
        let post_id = self.state.post_count + 1;
        let mut prof = self.profiles.remove(aix);
        prof.posts_count = prof.posts_count + 1;
        let ghost gprof = prof;
        self.profiles.insert(aix, prof);
        let p = Post {
            post_id,
            author,
            collaborator: Some(collaborator),
            content,
            image_url,
            likes_count: 0,
            comments_count: 0,
            created_at: now,
            updated_at: now,
            is_deleted: false,
            is_collaboration: true,
        };
        self.posts.push(p);
        self.state.post_count = post_id;
        proof {
            lemma_remove_insert_is_update(old(self).profiles@, aix as int, gprof);
            lemma_profiles_updated(*old(self), *self, aix as int, gprof);
        }
        Ok(post_id)
    }

    /// Tombstones a post. Only the author or the collaborator may delete;
    /// the author's live-post counter drops only for the author.
    pub fn delete_post(&mut self, caller: u64, post_id: u64, now: u64) -> (r: Result<
        (),
        ErrorCode,
    >)
        requires
            old(self).wf(),
            old(self).state.initialized,
        ensures
            final(self).wf(),
            (r matches Err(ErrorCode::PostNotFound)) <==> !old(self).has_post(post_id),
            (r matches Err(ErrorCode::ProfileNotFound)) <==> old(self).has_post(post_id) && !old(
                self,
            ).has_profile(caller),
            (r matches Err(ErrorCode::CannotDeleteOthersPost)) <==> old(self).has_post(post_id)
                && old(self).has_profile(caller) && !(caller == old(self).post(post_id).author
                || old(self).post(post_id).collaborator == Some(caller)),
            (r matches Err(ErrorCode::PostDeleted)) <==> old(self).has_post(post_id) && old(
                self,
            ).has_profile(caller) && (caller == old(self).post(post_id).author || old(self).post(
                post_id,
            ).collaborator == Some(caller)) && old(self).post(post_id).is_deleted,
            r is Ok <==> old(self).has_post(post_id) && old(self).has_profile(caller) && (caller
                == old(self).post(post_id).author || old(self).post(post_id).collaborator == Some(
                caller,
            )) && !old(self).post(post_id).is_deleted,
            r is Err ==> *final(self) == *old(self),
            r is Ok ==> delete_post_applied(*old(self), *final(self), caller, post_id, now),
    {
        let n = self.posts.len();
        if post_id < 1 || post_id > n as u64 {
            return Err(ErrorCode::PostNotFound);
        }
        let pix = (post_id - 1) as usize;
        let cix = match self.find_profile(caller) {
            Some(i) => i,
            None => {
                return Err(ErrorCode::ProfileNotFound);
            },
        };
        let is_author = self.posts[pix].author == caller;
        let is_collaborator = match self.posts[pix].collaborator {
            Some(c) => c == caller,
            None => false,
        };
        if !is_author && !is_collaborator {
            return Err(ErrorCode::CannotDeleteOthersPost);
        }
        if self.posts[pix].is_deleted {
            return Err(ErrorCode::PostDeleted);
        }
        let mut p = self.posts.remove(pix);
        p.is_deleted = true;
        p.updated_at = now;
        let ghost gpost = p;
        self.posts.insert(pix, p);
        proof {
            lemma_remove_insert_is_update(old(self).posts@, pix as int, gpost);
        }
        if is_author {
            let mut prof = self.profiles.remove(cix);
            prof.posts_count = if prof.posts_count > 0 {
                prof.posts_count - 1
            } else {
                0
            };
            let ghost gprof = prof;
            self.profiles.insert(cix, prof);
            proof {
                lemma_remove_insert_is_update(old(self).profiles@, cix as int, gprof);
                lemma_profiles_updated(*old(self), *self, cix as int, gprof);
            }
        } else {
            proof {
                lemma_same_profiles_same_has(*old(self), *self);
            }
        }
        Ok(())
    }
}

} // verus!
