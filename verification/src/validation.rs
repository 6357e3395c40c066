//! The shared validation rules: pure length checks, each with its specific
//! failure kind.

use vstd::prelude::*;
use crate::constants::{
    MAX_BIO_LENGTH, MAX_COMMENT_LENGTH, MAX_DISPLAY_NAME_LENGTH, MAX_IMAGE_URL_LENGTH,
    MAX_POST_CONTENT_LENGTH, MAX_USERNAME_LENGTH,
};
use crate::errors::ErrorCode;

verus! {

/// Checks a username against its length bound.
pub fn check_username(username: &Vec<u8>) -> (r: Result<(), ErrorCode>)
    ensures
        r is Ok <==> username@.len() <= MAX_USERNAME_LENGTH,
        r is Err ==> r matches Err(ErrorCode::UsernameTooLong),
{
    if username.len() > MAX_USERNAME_LENGTH {
        Err(ErrorCode::UsernameTooLong)
    } else {
        Ok(())
    }
}

/// Checks a display name against its length bound.
pub fn check_display_name(display_name: &Vec<u8>) -> (r: Result<(), ErrorCode>)
    ensures
        r is Ok <==> display_name@.len() <= MAX_DISPLAY_NAME_LENGTH,
        r is Err ==> r matches Err(ErrorCode::DisplayNameTooLong),
{
    if display_name.len() > MAX_DISPLAY_NAME_LENGTH {
        Err(ErrorCode::DisplayNameTooLong)
    } else {
        Ok(())
    }
}

/// Checks a bio against its length bound.
pub fn check_bio(bio: &Vec<u8>) -> (r: Result<(), ErrorCode>)
    ensures
        r is Ok <==> bio@.len() <= MAX_BIO_LENGTH,
        r is Err ==> r matches Err(ErrorCode::BioTooLong),
{
    if bio.len() > MAX_BIO_LENGTH {
        Err(ErrorCode::BioTooLong)
    } else {
        Ok(())
    }
}

/// Checks an image URL against its length bound.
pub fn check_image_url(url: &Vec<u8>) -> (r: Result<(), ErrorCode>)
    ensures
        r is Ok <==> url@.len() <= MAX_IMAGE_URL_LENGTH,
        r is Err ==> r matches Err(ErrorCode::ImageUrlTooLong),
{
    if url.len() > MAX_IMAGE_URL_LENGTH {
        Err(ErrorCode::ImageUrlTooLong)
    } else {
        Ok(())
    }
}

/// Checks post content against its length bound.
pub fn check_post_content(content: &Vec<u8>) -> (r: Result<(), ErrorCode>)
    ensures
        r is Ok <==> content@.len() <= MAX_POST_CONTENT_LENGTH,
        r is Err ==> r matches Err(ErrorCode::PostContentTooLong),
{
    if content.len() > MAX_POST_CONTENT_LENGTH {
        Err(ErrorCode::PostContentTooLong)
    } else {
        Ok(())
    }
}

/// Checks comment content against its length bound.
pub fn check_comment_content(content: &Vec<u8>) -> (r: Result<(), ErrorCode>)
    ensures
        r is Ok <==> content@.len() <= MAX_COMMENT_LENGTH,
        r is Err ==> r matches Err(ErrorCode::CommentTooLong),
{
    if content.len() > MAX_COMMENT_LENGTH {
        Err(ErrorCode::CommentTooLong)
    } else {
        Ok(())
    }
}

} // verus!
