//! Posts: creating and changing them.
//!
//! The repositories are outside collaborators. Each use case here takes
//! what they found and returns what is to be stored; the caller does the
//! lookups before and the write after.

use crate::domain::error::{DomainError, DomainErrorView};
use crate::domain::model::post::{Post, PostId, PostWithAuthor};
use crate::domain::model::user::{uuid_v4, UserId};
use crate::domain::model::{utc_now, Timestamp};
use crate::interfaces::api::dto::post::UpdatePostPayload;
use crate::text::replaced;
use vstd::pervasive::cloned;
use vstd::prelude::*;

verus! {

/// The use cases around posts, over a repository of posts and one of users.
pub struct PostService<R, UR> {
    repo: R,
    user_repo: UR,
}

/// What changing a post yields. A post that was not found cannot be
/// changed; a new author has to exist. Every field that the payload holds
/// replaces the post's, and the time of the change is recorded.
pub open spec fn updated_post(
    found: Option<PostWithAuthor>,
    payload: UpdatePostPayload,
    author_found: bool,
    now: Timestamp,
) -> Result<Post, DomainErrorView> {
    match found {
        None => Err(DomainErrorView::NotFound),
        Some(pwa) => if payload.user_id is Some && !author_found {
            Err(DomainErrorView::NotFound)
        } else {
            Ok(
                Post {
                    id: pwa.id,
                    user_id: match payload.user_id {
                        Some(id) => id,
                        None => pwa.author.id,
                    },
                    title: replaced(pwa.title, payload.title),
                    content: replaced(pwa.content, payload.content),
                    published: match payload.published {
                        Some(p) => p,
                        None => pwa.published,
                    },
                    created_at: pwa.created_at,
                    updated_at: Some(now),
                },
            )
        },
    }
}

/// A result that carries a post, with its error as characters.
pub open spec fn post_view(r: Result<Post, DomainError>) -> Result<Post, DomainErrorView> {
    match r {
        Ok(post) => Ok(post),
        Err(e) => Err(e@),
    }
}

impl<R, UR> PostService<R, UR> {
    /// The repository of posts.
    pub closed spec fn spec_repo(&self) -> R {
        self.repo
    }

    /// The repository of users.
    pub closed spec fn spec_user_repo(&self) -> UR {
        self.user_repo
    }

    pub fn new(repo: R, user_repo: UR) -> (r: Self)
        ensures
            r.spec_repo() == repo,
            r.spec_user_repo() == user_repo,
    {
        PostService { repo, user_repo }
    }

    /// The repository of posts, for the caller to look up and to store.
    pub fn repo(&self) -> (r: &R)
        ensures
            *r == self.spec_repo(),
    {
        &self.repo
    }

    /// The repository of users, for the caller to look up authors.
    pub fn user_repo(&self) -> (r: &UR)
        ensures
            *r == self.spec_user_repo(),
    {
        &self.user_repo
    }

    /// The new post with the given identifier, created at `now` and never
    /// changed so far.
    pub fn create_with(
        &self,
        id: PostId,
        title: String,
        content: String,
        published: bool,
        user_id: UserId,
        now: Timestamp,
    ) -> (r: Post)
        ensures
            r == (Post {
                id,
                user_id,
                title,
                content,
                published,
                created_at: now,
                updated_at: None,
            }),
    {
        Post { id, title, content, published, user_id, created_at: now, updated_at: None }
    }

    /// A new post under a fresh random identifier, created at the present
    /// time of the system clock. Whatever was drawn and read, the post holds
    /// the given values and has never been changed.
    pub fn create(&self, title: String, content: String, published: bool, user_id: UserId) -> (r:
        Post)
        ensures
            r.title == title,
            r.content == content,
            r.published == published,
            r.user_id == user_id,
            r.updated_at is None,
    {
        self.create_with(PostId(uuid_v4()), title, content, published, user_id, utc_now())
    }

    /// Changes a post at the time `now`. `found` is what the repository
    /// holds under the post's identifier; `author_found` says whether the
    /// user named by the payload exists, and is not looked at where the
    /// payload names none.
    pub fn update_at(
        &self,
        found: Option<PostWithAuthor>,
        payload: UpdatePostPayload,
        author_found: bool,
        now: Timestamp,
    ) -> (r: Result<Post, DomainError>)
        ensures
            post_view(r) == updated_post(found, payload, author_found, now),
    {
        let mut post = match found {
            None => {
                return Err(DomainError::NotFound);
            },
            Some(pwa) => Post::from(pwa),
        };
        match payload.title {
            Some(title) => {
                post.title = title;
            },
            None => {},
        }
        match payload.content {
            Some(content) => {
                post.content = content;
            },
            None => {},
        }
        match payload.published {
            Some(published) => {
                post.published = published;
            },
            None => {},
        }
        match payload.user_id {
            Some(user_id) => {
                if !author_found {
                    return Err(DomainError::NotFound);
                }
                post.user_id = user_id;
            },
            None => {},
        }
        post.updated_at = Some(now);
        Ok(post)
    }

    /// Changes a post at the present time of the system clock. Whatever the
    /// clock read, the result is the one of `update_at` at some time.
    pub fn update(
        &self,
        found: Option<PostWithAuthor>,
        payload: UpdatePostPayload,
        author_found: bool,
    ) -> (r: Result<Post, DomainError>)
        ensures
            exists|now: Timestamp|
                post_view(r) == #[trigger] updated_post(found, payload, author_found, now),
    {
        let now = utc_now();
        let r = self.update_at(found, payload, author_found, now);
        proof {
            assert(post_view(r) == updated_post(found, payload, author_found, now));
        }
        r
    }
}

impl<R: Clone, UR: Clone> Clone for PostService<R, UR> {
    /// A copy over copies of the repositories.
    fn clone(&self) -> (r: Self)
        ensures
            cloned::<R>(self.spec_repo(), r.spec_repo()),
            cloned::<UR>(self.spec_user_repo(), r.spec_user_repo()),
    {
        PostService { repo: self.repo.clone(), user_repo: self.user_repo.clone() }
    }
}

} // verus!
