//! Comment transitions: creation under a live post and author-only soft
//! deletion.

use vstd::prelude::*;
use crate::constants::MAX_COMMENT_LENGTH;
use crate::errors::ErrorCode;
use crate::ledger::{lemma_remove_insert_is_update, lemma_same_profiles_same_has, sat_dec, Ledger};
use crate::states::{Comment, Post, ProgramState};
use crate::validation::check_comment_content;

verus! {

/// Exact effect of a successful `create_comment`: the next comment id is
/// allocated and the parent post's comment counter rises by one.
pub open spec fn create_comment_applied(
    pre: Ledger,
    post: Ledger,
    author: u64,
    post_id: u64,
    content: Vec<u8>,
    now: u64,
) -> bool {
    &&& pre.has_post(post_id)
    &&& !pre.post(post_id).is_deleted
    &&& post.state == (ProgramState {
        comment_count: (pre.state.comment_count + 1) as u64,
        ..pre.state
    })
    &&& post.comments@ == pre.comments@.push(
        Comment {
            comment_id: (pre.state.comment_count + 1) as u64,
            post_id,
            author,
            content,
            created_at: now,
            is_deleted: false,
        },
    )
    &&& post.posts@ == pre.posts@.update(
        post_id as int - 1,
        Post { comments_count: (pre.post(post_id).comments_count + 1) as u64, ..pre.post(post_id) },
    )
    &&& post.profiles@ == pre.profiles@
    &&& post.follows@ == pre.follows@
    &&& post.likes@ == pre.likes@
    &&& post.donations@ == pre.donations@
    &&& post.balances@ == pre.balances@
}

/// Exact effect of a successful `delete_comment`: the comment is
/// tombstoned and the parent post's comment counter drops, saturating at
/// zero.
pub open spec fn delete_comment_applied(
    pre: Ledger,
    post: Ledger,
    caller: u64,
    comment_id: u64,
) -> bool {
    &&& pre.has_comment(comment_id)
    &&& pre.comment(comment_id).author == caller
    &&& !pre.comment(comment_id).is_deleted
    &&& post.state == pre.state
    &&& post.comments@ == pre.comments@.update(
        comment_id as int - 1,
        Comment { is_deleted: true, ..pre.comment(comment_id) },
    )
    &&& post.posts@ == pre.posts@.update(
        pre.comment(comment_id).post_id as int - 1,
        Post {
            comments_count: sat_dec(pre.post(pre.comment(comment_id).post_id).comments_count),
            ..pre.post(pre.comment(comment_id).post_id)
        },
    )
    &&& post.profiles@ == pre.profiles@
    &&& post.follows@ == pre.follows@
    &&& post.likes@ == pre.likes@
    &&& post.donations@ == pre.donations@
    &&& post.balances@ == pre.balances@
}

impl Ledger {
    /// Adds a comment under a live post, assigning the next comment id.
    pub fn create_comment(&mut self, author: u64, post_id: u64, content: Vec<u8>, now: u64) -> (r:
        Result<u64, ErrorCode>)
        requires
            old(self).wf(),
            old(self).state.initialized,
            old(self).state.comment_count < u64::MAX,
        ensures
            final(self).wf(),
            (r matches Err(ErrorCode::PostNotFound)) <==> !old(self).has_post(post_id),
            (r matches Err(ErrorCode::PostDeleted)) <==> old(self).has_post(post_id) && old(
                self,
            ).post(post_id).is_deleted,
            (r matches Err(ErrorCode::CommentTooLong)) <==> old(self).has_post(post_id) && !old(
                self,
            ).post(post_id).is_deleted && content@.len() > MAX_COMMENT_LENGTH,
            r is Ok <==> old(self).has_post(post_id) && !old(self).post(post_id).is_deleted
                && content@.len() <= MAX_COMMENT_LENGTH,
            r is Err ==> *final(self) == *old(self),
            r matches Ok(cid) ==> cid == old(self).state.comment_count + 1,
            r is Ok ==> create_comment_applied(
                *old(self),
                *final(self),
                author,
                post_id,
                content,
                now,
            ),
    {
        let n = self.posts.len();
        if post_id < 1 || post_id > n as u64 {
            return Err(ErrorCode::PostNotFound);
        }
        let pix = (post_id - 1) as usize;
        if self.posts[pix].is_deleted {
            return Err(ErrorCode::PostDeleted);
        }
        if let Err(e) = check_comment_content(&content) {
            return Err(e);
        }
        proof {
            assert(old(self).posts@[pix as int].comments_count <= old(self).state.comment_count);
        }
        let comment_id = self.state.comment_count + 1;
        let mut p = self.posts.remove(pix);
        p.comments_count = p.comments_count + 1;
        let ghost gpost = p;
        self.posts.insert(pix, p);
        let c = Comment {
            comment_id,
            post_id,
            author,
            content,
            created_at: now,
            is_deleted: false,
        };
        self.comments.push(c);
        self.state.comment_count = comment_id;
        proof {
            lemma_remove_insert_is_update(old(self).posts@, pix as int, gpost);
            lemma_same_profiles_same_has(*old(self), *self);
        }
        Ok(comment_id)
    }

    /// Tombstones a comment; only its author may do so. The parent post's
    /// comment counter drops, saturating at zero.
    pub fn delete_comment(&mut self, caller: u64, comment_id: u64) -> (r: Result<(), ErrorCode>)
        requires
            old(self).wf(),
            old(self).state.initialized,
        ensures
            final(self).wf(),
            (r matches Err(ErrorCode::CommentNotFound)) <==> !old(self).has_comment(comment_id)
                || (old(self).has_comment(comment_id) && old(self).comment(comment_id).author
                == caller && old(self).comment(comment_id).is_deleted),
            (r matches Err(ErrorCode::Unauthorized)) <==> old(self).has_comment(comment_id)
                && old(self).comment(comment_id).author != caller,
            r is Ok <==> old(self).has_comment(comment_id) && old(self).comment(
                comment_id,
            ).author == caller && !old(self).comment(comment_id).is_deleted,
            r is Err ==> *final(self) == *old(self),
            r is Ok ==> delete_comment_applied(*old(self), *final(self), caller, comment_id),
    {
        let n = self.comments.len();
        if comment_id < 1 || comment_id > n as u64 {
            return Err(ErrorCode::CommentNotFound);
        }
        let cix = (comment_id - 1) as usize;
        if self.comments[cix].author != caller {
            return Err(ErrorCode::Unauthorized);
        }
        if self.comments[cix].is_deleted {
            return Err(ErrorCode::CommentNotFound);
        }
        let parent_id = self.comments[cix].post_id;
        let _np = self.posts.len();
        proof {
            assert(1 <= old(self).comments@[cix as int].post_id <= old(self).posts@.len());
        }
        let pix = (parent_id - 1) as usize;
        proof {
            assert(pix as int == parent_id as int - 1);
        }
        let mut c = self.comments.remove(cix);
        c.is_deleted = true;
        let ghost gcomment = c;
        self.comments.insert(cix, c);
        proof {
            lemma_remove_insert_is_update(old(self).comments@, cix as int, gcomment);
        }
        let mut p = self.posts.remove(pix);
        p.comments_count = if p.comments_count > 0 {
            p.comments_count - 1
        } else {
            0
        };
        let ghost gpost = p;
        self.posts.insert(pix, p);
        proof {
            lemma_remove_insert_is_update(old(self).posts@, pix as int, gpost);
            lemma_same_profiles_same_has(*old(self), *self);
        }
        Ok(())
    }
}

} // verus!
