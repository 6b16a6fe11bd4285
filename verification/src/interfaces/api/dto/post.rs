//! The payloads about posts and their validation.

use crate::domain::model::user::UserId;
use crate::interfaces::api::error::{ApiError, ApiErrorView};
use crate::interfaces::api::validation::{
    length_rule, opt_chars, push_length, push_required, reject_violations, require_field,
    required_message, required_rule, unit_view, validate_dto, violations_verdict,
    violations_view, Validate, Violation, ViolationView,
};
use vstd::prelude::*;

verus! {

/// The longest text that the length rule of a content accepts: a content
/// has a least length only.
pub const UNBOUNDED: usize = usize::MAX;

/// The payload of a new post.
#[derive(Debug)]
pub struct NewPost {
    pub title: Option<String>,
    pub content: Option<String>,
    pub published: bool,
    pub user_id: Option<UserId>,
}

impl Validate for NewPost {
    /// The field rules that the payload breaks: the title is required and 2
    /// to 255 characters long, the content is required and at least 2
    /// characters long, the author is required.
    open spec fn violations(&self) -> Seq<ViolationView> {
        length_rule(
            opt_chars(self.title),
            2,
            255,
            "title"@,
            "Title must be between 2 and 255 characters long"@,
        ) + required_rule(self.title is Some, "title"@, "Title is required"@) + length_rule(
            opt_chars(self.content),
            2,
            UNBOUNDED as nat,
            "content"@,
            "Content must be at least 2 characters long"@,
        ) + required_rule(self.content is Some, "content"@, "Content is required"@)
            + required_rule(self.user_id is Some, "user_id"@, "User ID is required"@)
    }

    /// Validates the payload against the rules of its fields.
    fn validate(&self) -> (r: Result<(), ApiError>) {
        let mut violations: Vec<Violation> = Vec::new();
        assert(violations_view(violations@) =~= Seq::empty());
        push_length(
            &mut violations,
            &self.title,
            2,
            255,
            "title",
            "Title must be between 2 and 255 characters long",
        );
        push_required(&mut violations, self.title.is_some(), "title", "Title is required");
        push_length(
            &mut violations,
            &self.content,
            2,
            UNBOUNDED,
            "content",
            "Content must be at least 2 characters long",
        );
        push_required(&mut violations, self.content.is_some(), "content", "Content is required");
        push_required(&mut violations, self.user_id.is_some(), "user_id", "User ID is required");
        assert(violations_view(violations@) =~= self.violations());
        reject_violations(&violations)
    }
}

impl NewPost {
    /// Validates the payload against the rules of its fields.
    pub fn validate_post(&self) -> (r: Result<(), ApiError>)
        ensures
            unit_view(r) == violations_verdict(self.violations()),
    {
        validate_dto(self)
    }

    /// What converting the payload answers, apart from the values: the
    /// first of title, content and author that is missing is reported; the
    /// rules on lengths are not looked at.
    pub open spec fn domain_verdict(&self) -> Result<(), ApiErrorView> {
        if self.title is None {
            Err(ApiErrorView::BadRequest(required_message("title"@)))
        } else if self.content is None {
            Err(ApiErrorView::BadRequest(required_message("content"@)))
        } else if self.user_id is None {
            Err(ApiErrorView::BadRequest(required_message("user_id"@)))
        } else {
            Ok(())
        }
    }

    /// Hands out the title, the content, whether the post is published, and
    /// the author, provided that none of them is missing.
    pub fn validate_and_into_domain(self) -> (r: Result<(String, String, bool, UserId), ApiError>)
        ensures
            match self.domain_verdict() {
                Ok(()) => r matches Ok(t) && Some(t.0) == self.title && Some(t.1) == self.content
                    && t.2 == self.published && Some(t.3) == self.user_id,
                Err(e) => r matches Err(x) && x@ == e,
            },
    {
        let title = match require_field(self.title, "title") {
            Ok(v) => v,
            Err(e) => {
                return Err(e);
            },
        };
        let content = match require_field(self.content, "content") {
            Ok(v) => v,
            Err(e) => {
                return Err(e);
            },
        };
        let user_id = match require_field(self.user_id, "user_id") {
            Ok(v) => v,
            Err(e) => {
                return Err(e);
            },
        };
        Ok((title, content, self.published, user_id))
    }
}

/// The payload of a change to a post.
#[derive(Debug)]
pub struct UpdatePost {
    pub title: Option<String>,
    pub content: Option<String>,
    pub published: Option<bool>,
    pub user_id: Option<UserId>,
}

/// The changes to apply to a post: each field that is present replaces the
/// post's.
#[derive(Debug)]
pub struct UpdatePostPayload {
    pub title: Option<String>,
    pub content: Option<String>,
    pub published: Option<bool>,
    pub user_id: Option<UserId>,
}

impl Validate for UpdatePost {
    /// The field rules that the payload breaks: a title is 2 to 255
    /// characters long, a content at least 2.
    open spec fn violations(&self) -> Seq<ViolationView> {
        length_rule(
            opt_chars(self.title),
            2,
            255,
            "title"@,
            "Title must be between 2 and 255 characters long"@,
        ) + length_rule(
            opt_chars(self.content),
            2,
            UNBOUNDED as nat,
            "content"@,
            "Content must be at least 2 characters long"@,
        )
    }

    /// Validates the payload against the rules of its fields.
    fn validate(&self) -> (r: Result<(), ApiError>) {
        let mut violations: Vec<Violation> = Vec::new();
        assert(violations_view(violations@) =~= Seq::empty());
        push_length(
            &mut violations,
            &self.title,
            2,
            255,
            "title",
            "Title must be between 2 and 255 characters long",
        );
        push_length(
            &mut violations,
            &self.content,
            2,
            UNBOUNDED,
            "content",
            "Content must be at least 2 characters long",
        );
        assert(violations_view(violations@) =~= self.violations());
        reject_violations(&violations)
    }
}

impl UpdatePost {
    /// Validates the payload against the rules of its fields.
    pub fn validate_post(&self) -> (r: Result<(), ApiError>)
        ensures
            unit_view(r) == violations_verdict(self.violations()),
    {
        validate_dto(self)
    }

    /// Validates the payload and hands out what is to be applied: every
    /// field as it came.
    pub fn validate_and_into_domain(self) -> (r: Result<UpdatePostPayload, ApiError>)
        ensures
            match violations_verdict(self.violations()) {
                Ok(()) => r matches Ok(p) && p.title == self.title && p.content == self.content
                    && p.published == self.published && p.user_id == self.user_id,
                Err(e) => r matches Err(x) && x@ == e,
            },
    {
        match self.validate_post() {
            Ok(()) => {},
            Err(e) => {
                return Err(e);
            },
        }
        Ok(
            UpdatePostPayload {
                title: self.title,
                content: self.content,
                published: self.published,
                user_id: self.user_id,
            },
        )
    }
}

} // verus!
