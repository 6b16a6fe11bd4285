//! The errors that the HTTP interface answers with.

use crate::domain::error::{DomainError, DomainErrorView};
use vstd::prelude::*;

verus! {

/// An error as the client sees it. The body of the response is the JSON
/// object `{"error": <message>}`.
#[derive(Debug)]
pub enum ApiError {
    NotFound,
    BadRequest(String),
    InternalError,
    Unauthorized(String),
}

/// `ApiError` with its texts as characters.
pub enum ApiErrorView {
    NotFound,
    BadRequest(Seq<char>),
    InternalError,
    Unauthorized(Seq<char>),
}

impl View for ApiError {
    type V = ApiErrorView;

    open spec fn view(&self) -> ApiErrorView {
        match self {
            ApiError::NotFound => ApiErrorView::NotFound,
            ApiError::BadRequest(s) => ApiErrorView::BadRequest(s@),
            ApiError::InternalError => ApiErrorView::InternalError,
            ApiError::Unauthorized(s) => ApiErrorView::Unauthorized(s@),
        }
    }
}

impl ApiErrorView {
    /// The HTTP status of the error.
    pub open spec fn status(self) -> u16 {
        match self {
            ApiErrorView::NotFound => 404,
            ApiErrorView::BadRequest(_) => 400,
            ApiErrorView::InternalError => 500,
            ApiErrorView::Unauthorized(_) => 401,
        }
    }

    /// The message of the error. An internal error says nothing of its
    /// cause.
    pub open spec fn message(self) -> Seq<char> {
        match self {
            ApiErrorView::NotFound => "Ressource not found"@,
            ApiErrorView::BadRequest(message) => message,
            ApiErrorView::InternalError => "Internal server error"@,
            ApiErrorView::Unauthorized(message) => message,
        }
    }

    /// The error that the client sees for an error of the domain. Failures
    /// of the database and of password hashing become an internal error
    /// without detail.
    pub open spec fn of_domain(e: DomainErrorView) -> ApiErrorView {
        match e {
            DomainErrorView::NotFound => ApiErrorView::NotFound,
            DomainErrorView::InternalError => ApiErrorView::InternalError,
            DomainErrorView::Unauthorized(message) => ApiErrorView::Unauthorized(message),
            DomainErrorView::DatabaseError(_) => ApiErrorView::InternalError,
            DomainErrorView::DuplicateEmail => ApiErrorView::BadRequest("Email already exists"@),
            DomainErrorView::EmptyContent => ApiErrorView::BadRequest("Content cannot be empty"@),
            DomainErrorView::InvalidMaxLentgthTitle => ApiErrorView::BadRequest(
                "Title exceeds maximum length"@,
            ),
            DomainErrorView::InvalidMinLentgthTitle => ApiErrorView::BadRequest(
                "Title is too short"@,
            ),
            DomainErrorView::InvalidUserId => ApiErrorView::BadRequest("Invalid user ID"@),
            DomainErrorView::PasswordHashingError(_) => ApiErrorView::InternalError,
        }
    }
}

impl ApiError {
    /// The HTTP status of the error.
    pub fn status_code(&self) -> (r: u16)
        ensures
            r == self@.status(),
    {
        match self {
            ApiError::NotFound => 404,
            ApiError::BadRequest(_) => 400,
            ApiError::InternalError => 500,
            ApiError::Unauthorized(_) => 401,
        }
    }

    /// The message of the error.
    pub fn to_string(&self) -> (r: String)
        ensures
            r@ == self@.message(),
    {
        match self {
            ApiError::NotFound => "Ressource not found".to_owned(),
            ApiError::BadRequest(message) => message.clone(),
            ApiError::InternalError => "Internal server error".to_owned(),
            ApiError::Unauthorized(message) => message.clone(),
        }
    }

    /// The error that the client sees for an error of the domain.
    pub fn from(err: DomainError) -> (r: ApiError)
        ensures
            r@ == ApiErrorView::of_domain(err@),
    {
        match err {
            DomainError::NotFound => ApiError::NotFound,
            DomainError::InternalError => ApiError::InternalError,
            DomainError::Unauthorized(message) => ApiError::Unauthorized(message),
            DomainError::DatabaseError(_) => ApiError::InternalError,
            DomainError::DuplicateEmail => ApiError::BadRequest("Email already exists".to_owned()),
            DomainError::EmptyContent => ApiError::BadRequest("Content cannot be empty".to_owned()),
            DomainError::InvalidMaxLentgthTitle => ApiError::BadRequest(
                "Title exceeds maximum length".to_owned(),
            ),
            DomainError::InvalidMinLentgthTitle => ApiError::BadRequest(
                "Title is too short".to_owned(),
            ),
            DomainError::InvalidUserId => ApiError::BadRequest("Invalid user ID".to_owned()),
            DomainError::PasswordHashingError(_) => ApiError::InternalError,
        }
    }
}

/// Errors that signal corrupted data or a failing system reach the client
/// as status 500 with a message that says nothing of the cause, and an
/// authentication failure keeps its message and is a 401.
pub proof fn lemma_internal_errors_are_opaque(e: DomainErrorView)
    ensures
        (e is DatabaseError || e is PasswordHashingError || e is InternalError)
            ==> ApiErrorView::of_domain(e).status() == 500 && ApiErrorView::of_domain(e).message()
            == "Internal server error"@,
        e matches DomainErrorView::Unauthorized(m) ==> ApiErrorView::of_domain(e).status() == 401
            && ApiErrorView::of_domain(e).message() == m,
{
}

} // verus!
