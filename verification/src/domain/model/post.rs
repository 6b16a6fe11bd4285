//! Posts, alone and together with their author.

use crate::domain::error::{DomainError, DomainErrorView};
use crate::domain::model::user::UserId;
use crate::domain::model::Timestamp;
use crate::domain::validation::byte_len;
use crate::interfaces::api::dto::user::UserPublic;
use crate::text::{trim, trimmed};
use vstd::prelude::*;
use vstd::string::StrSliceExecFns;

verus! {

/// The identifier of a post: the 128-bit value of a UUID.
#[derive(Debug, Clone, Copy, PartialEq, Eq, Structural)]
pub struct PostId(pub u128);

/// A post as the repository stores it.
#[derive(Debug)]
pub struct Post {
    pub id: PostId,
    pub user_id: UserId,
    pub title: String,
    pub content: String,
    pub published: bool,
    pub created_at: Timestamp,
    pub updated_at: Option<Timestamp>,
}

impl Clone for Post {
    fn clone(&self) -> (r: Self)
        ensures
            r == *self,
    {
        Post {
            id: self.id,
            user_id: self.user_id,
            title: self.title.clone(),
            content: self.content.clone(),
            published: self.published,
            created_at: self.created_at,
            updated_at: self.updated_at,
        }
    }
}

/// A post together with the public part of its author.
#[derive(Debug)]
pub struct PostWithAuthor {
    pub id: PostId,
    pub title: String,
    pub content: String,
    pub published: bool,
    pub created_at: Timestamp,
    pub updated_at: Option<Timestamp>,
    pub author: UserPublic,
}

impl Post {
    /// The post of a post with its author: the author is kept by identifier
    /// only.
    pub open spec fn of(pwa: PostWithAuthor) -> Post {
        Post {
            id: pwa.id,
            user_id: pwa.author.id,
            title: pwa.title,
            content: pwa.content,
            published: pwa.published,
            created_at: pwa.created_at,
            updated_at: pwa.updated_at,
        }
    }

    /// The post of a post with its author.
    pub fn from(pwa: PostWithAuthor) -> (r: Post)
        ensures
            r == Post::of(pwa),
    {
        Post {
            id: pwa.id,
            user_id: pwa.author.id,
            title: pwa.title,
            content: pwa.content,
            published: pwa.published,
            created_at: pwa.created_at,
            updated_at: pwa.updated_at,
        }
    }
}

/// What is asked of the texts of a post before it is stored: a title of 3
/// to 255 bytes and a content that is not empty, the white space around
/// each left out.
pub open spec fn post_text_verdict(title: Seq<char>, content: Seq<char>) -> Result<
    (),
    DomainErrorView,
> {
    let t = trimmed(title, 0, title.len() as int);
    let c = trimmed(content, 0, content.len() as int);
    if t.len() == 0 {
        Err(DomainErrorView::EmptyContent)
    } else if byte_len(t) < 3 {
        Err(DomainErrorView::InvalidMinLentgthTitle)
    } else if byte_len(t) > 255 {
        Err(DomainErrorView::InvalidMaxLentgthTitle)
    } else if c.len() == 0 {
        Err(DomainErrorView::EmptyContent)
    } else {
        Ok(())
    }
}

/// A result without a value, with its error as characters.
pub open spec fn checked_view(r: Result<(), DomainError>) -> Result<(), DomainErrorView> {
    match r {
        Ok(()) => Ok(()),
        Err(e) => Err(e@),
    }
}

/// Checks the texts of a post before it is stored.
pub fn check_post_text(title: &str, content: &str) -> (r: Result<(), DomainError>)
    ensures
        checked_view(r) == post_text_verdict(title@, content@),
{
    let t = trim(title);
    if t.unicode_len() == 0 {
        return Err(DomainError::EmptyContent);
    }
    let length = t.as_bytes().len();
    if length < 3 {
        return Err(DomainError::InvalidMinLentgthTitle);
    }
    if length > 255 {
        return Err(DomainError::InvalidMaxLentgthTitle);
    }
    if trim(content).unicode_len() == 0 {
        return Err(DomainError::EmptyContent);
    }
    Ok(())
}

} // verus!
