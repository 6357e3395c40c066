//! Profile transitions: creation and per-field update.

use vstd::prelude::*;
use crate::constants::{
    MAX_BIO_LENGTH, MAX_DISPLAY_NAME_LENGTH, MAX_IMAGE_URL_LENGTH, MAX_USERNAME_LENGTH,
};
use crate::errors::ErrorCode;
use crate::ledger::{lemma_profiles_pushed, lemma_profiles_updated, lemma_remove_insert_is_update,
    Ledger};
use crate::states::{ProgramState, UserProfile};
use crate::validation::{check_bio, check_display_name, check_image_url, check_username};

verus! {

/// An optional replacement text exceeds the given bound.
pub open spec fn opt_too_long(o: Option<Vec<u8>>, max: int) -> bool {
    match o {
        Some(v) => v@.len() > max,
        None => false,
    }
}

/// The replacement if one was supplied, else the current value.
pub open spec fn opt_or(o: Option<Vec<u8>>, current: Vec<u8>) -> Vec<u8> {
    match o {
        Some(v) => v,
        None => current,
    }
}

/// Exact effect of a successful `create_profile`: one fresh profile with
/// zeroed counters, the user counter up by one, everything else untouched.
pub open spec fn create_profile_applied(
    pre: Ledger,
    post: Ledger,
    owner: u64,
    username: Vec<u8>,
    display_name: Vec<u8>,
    bio: Vec<u8>,
    profile_image_url: Vec<u8>,
    now: u64,
) -> bool {
    &&& !pre.has_profile(owner)
    &&& post.state == (ProgramState {
        user_count: (pre.state.user_count + 1) as u64,
        ..pre.state
    })
    &&& post.profiles@.len() == pre.profiles@.len() + 1
    &&& post.has_profile(owner)
    &&& post.profile(owner) == (UserProfile {
        owner,
        user_id: (pre.state.user_count + 1) as u64,
        username,
        display_name,
        bio,
        profile_image_url,
        followers_count: 0,
        following_count: 0,
        posts_count: 0,
        created_at: now,
        total_donations_received: 0,
        is_verified: false,
    })
    &&& forall|k: u64| k != owner ==> #[trigger] post.has_profile(k) == pre.has_profile(k)
    &&& forall|k: u64|
        k != owner && pre.has_profile(k) ==> #[trigger] post.profile(k) == pre.profile(k)
    &&& post.posts@ == pre.posts@
    &&& post.comments@ == pre.comments@
    &&& post.follows@ == pre.follows@
    &&& post.likes@ == pre.likes@
    &&& post.donations@ == pre.donations@
    &&& post.balances@ == pre.balances@
}

/// Exact effect of a successful `update_profile`: the caller's optional
/// fields replaced, everything else untouched.
pub open spec fn update_profile_applied(
    pre: Ledger,
    post: Ledger,
    caller: u64,
    display_name: Option<Vec<u8>>,
    bio: Option<Vec<u8>>,
    profile_image_url: Option<Vec<u8>>,
) -> bool {
    &&& pre.has_profile(caller)
    &&& post.state == pre.state
    &&& post.profiles@.len() == pre.profiles@.len()
    &&& post.has_profile(caller)
    &&& post.profile(caller) == (UserProfile {
        display_name: opt_or(display_name, pre.profile(caller).display_name),
        bio: opt_or(bio, pre.profile(caller).bio),
        profile_image_url: opt_or(profile_image_url, pre.profile(caller).profile_image_url),
        ..pre.profile(caller)
    })
    &&& forall|k: u64| #[trigger] post.has_profile(k) == pre.has_profile(k)
    &&& forall|k: u64|
        k != caller && pre.has_profile(k) ==> #[trigger] post.profile(k) == pre.profile(k)
    &&& post.posts@ == pre.posts@
    &&& post.comments@ == pre.comments@
    &&& post.follows@ == pre.follows@
    &&& post.likes@ == pre.likes@
    &&& post.donations@ == pre.donations@
    &&& post.balances@ == pre.balances@
}

impl Ledger {
    /// Creates the caller's profile at its derived address, assigning the
    /// next user id. Fails if the address is already occupied or a field
    /// exceeds its bound.
    pub fn create_profile(
        &mut self,
        owner: u64,
        username: Vec<u8>,
        display_name: Vec<u8>,
        bio: Vec<u8>,
        profile_image_url: Vec<u8>,
        now: u64,
    ) -> (r: Result<(), ErrorCode>)
        requires
            old(self).wf(),
            old(self).state.initialized,
            old(self).state.user_count < u64::MAX,
        ensures
            final(self).wf(),
            (r matches Err(ErrorCode::AlreadyInitialized)) <==> old(self).has_profile(owner),
            (r matches Err(ErrorCode::UsernameTooLong)) <==> !old(self).has_profile(owner)
                && username@.len() > MAX_USERNAME_LENGTH,
            (r matches Err(ErrorCode::DisplayNameTooLong)) <==> !old(self).has_profile(owner)
                && username@.len() <= MAX_USERNAME_LENGTH && display_name@.len()
                > MAX_DISPLAY_NAME_LENGTH,
            (r matches Err(ErrorCode::BioTooLong)) <==> !old(self).has_profile(owner)
                && username@.len() <= MAX_USERNAME_LENGTH && display_name@.len()
                <= MAX_DISPLAY_NAME_LENGTH && bio@.len() > MAX_BIO_LENGTH,
            (r matches Err(ErrorCode::ImageUrlTooLong)) <==> !old(self).has_profile(owner)
                && username@.len() <= MAX_USERNAME_LENGTH && display_name@.len()
                <= MAX_DISPLAY_NAME_LENGTH && bio@.len() <= MAX_BIO_LENGTH
                && profile_image_url@.len() > MAX_IMAGE_URL_LENGTH,
            r is Ok <==> !old(self).has_profile(owner) && username@.len() <= MAX_USERNAME_LENGTH
                && display_name@.len() <= MAX_DISPLAY_NAME_LENGTH && bio@.len() <= MAX_BIO_LENGTH
                && profile_image_url@.len() <= MAX_IMAGE_URL_LENGTH,
            r is Err ==> *final(self) == *old(self),
            r is Ok ==> create_profile_applied(
                *old(self),
                *final(self),
                owner,
                username,
                display_name,
                bio,
                profile_image_url,
                now,
            ),
    {
        match self.find_profile(owner) {
            Some(i) => {
                proof {
                    assert(old(self).profiles@[i as int].owner == owner);
                }
                return Err(ErrorCode::AlreadyInitialized);
            },
            None => {},
        }
        if let Err(e) = check_username(&username) {
            return Err(e);
        }
        if let Err(e) = check_display_name(&display_name) {
            return Err(e);
        }
        if let Err(e) = check_bio(&bio) {
            return Err(e);
        }
        if let Err(e) = check_image_url(&profile_image_url) {
            return Err(e);
        }
        let user_id = self.state.user_count + 1;
        let p = UserProfile {
            owner,
            user_id,
            username,
            display_name,
            bio,
            profile_image_url,
            followers_count: 0,
            following_count: 0,
            posts_count: 0,
            created_at: now,
            total_donations_received: 0,
            is_verified: false,
        };
        let ghost gp = p;
        self.state.user_count = user_id;
        self.profiles.push(p);
        proof {
            lemma_profiles_pushed(*old(self), *self, gp);
        }
        Ok(())
    }

    /// Replaces whichever of the caller's display name, bio and image URL
    /// were supplied, each bounds-checked; the whole update applies or none
    /// of it does.
    pub fn update_profile(
        &mut self,
        caller: u64,
        display_name: Option<Vec<u8>>,
        bio: Option<Vec<u8>>,
        profile_image_url: Option<Vec<u8>>,
    ) -> (r: Result<(), ErrorCode>)
        requires
            old(self).wf(),
            old(self).state.initialized,
        ensures
            final(self).wf(),
            (r matches Err(ErrorCode::ProfileNotFound)) <==> !old(self).has_profile(caller),
            (r matches Err(ErrorCode::DisplayNameTooLong)) <==> old(self).has_profile(caller)
                && opt_too_long(display_name, MAX_DISPLAY_NAME_LENGTH as int),
            (r matches Err(ErrorCode::BioTooLong)) <==> old(self).has_profile(caller)
                && !opt_too_long(display_name, MAX_DISPLAY_NAME_LENGTH as int) && opt_too_long(
                bio,
                MAX_BIO_LENGTH as int,
            ),
            (r matches Err(ErrorCode::ImageUrlTooLong)) <==> old(self).has_profile(caller)
                && !opt_too_long(display_name, MAX_DISPLAY_NAME_LENGTH as int) && !opt_too_long(
                bio,
                MAX_BIO_LENGTH as int,
            ) && opt_too_long(profile_image_url, MAX_IMAGE_URL_LENGTH as int),
            r is Ok <==> old(self).has_profile(caller) && !opt_too_long(
                display_name,
                MAX_DISPLAY_NAME_LENGTH as int,
            ) && !opt_too_long(bio, MAX_BIO_LENGTH as int) && !opt_too_long(
                profile_image_url,
                MAX_IMAGE_URL_LENGTH as int,
            ),
            r is Err ==> *final(self) == *old(self),
            r is Ok ==> update_profile_applied(
                *old(self),
                *final(self),
                caller,
                display_name,
                bio,
                profile_image_url,
            ),
    {
        let ix = match self.find_profile(caller) {
            Some(i) => i,
            None => {
                return Err(ErrorCode::ProfileNotFound);
            },
        };
        match &display_name {
            Some(d) => {
                if let Err(e) = check_display_name(d) {
                    return Err(e);
                }
            },
            None => {},
        }
        match &bio {
            Some(b) => {
                if let Err(e) = check_bio(b) {
                    return Err(e);
                }
            },
            None => {},
        }
        match &profile_image_url {
            Some(u) => {
                if let Err(e) = check_image_url(u) {
                    return Err(e);
                }
            },
            None => {},
        }
        let mut p = self.profiles.remove(ix);
        match display_name {
            Some(d) => {
                p.display_name = d;
            },
            None => {},
        }
        match bio {
            Some(b) => {
                p.bio = b;
            },
            None => {},
        }
        match profile_image_url {
            Some(u) => {
                p.profile_image_url = u;
            },
            None => {},
        }
        let ghost gp = p;
        self.profiles.insert(ix, p);
        proof {
            lemma_remove_insert_is_update(old(self).profiles@, ix as int, gp);
            lemma_profiles_updated(*old(self), *self, ix as int, gp);
        }
        Ok(())
    }
}

} // verus!
