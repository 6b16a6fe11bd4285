//! What can go wrong in the domain.

use vstd::prelude::*;
use vstd::string::StringExecFns;

verus! {

/// An error of the domain layer.
#[derive(Debug)]
pub enum DomainError {
    InvalidMinLentgthTitle,
    InvalidMaxLentgthTitle,
    EmptyContent,
    /// The database failed; the text is the driver's description.
    DatabaseError(String),
    NotFound,
    InvalidUserId,
    /// Hashing a password failed; the text is for diagnostics only.
    PasswordHashingError(String),
    /// The caller is not who they claim to be; the text is the message.
    Unauthorized(String),
    InternalError,
    DuplicateEmail,
}

/// `DomainError` with its texts as characters.
pub enum DomainErrorView {
    InvalidMinLentgthTitle,
    InvalidMaxLentgthTitle,
    EmptyContent,
    DatabaseError(Seq<char>),
    NotFound,
    InvalidUserId,
    PasswordHashingError(Seq<char>),
    Unauthorized(Seq<char>),
    InternalError,
    DuplicateEmail,
}

impl View for DomainError {
    type V = DomainErrorView;

    open spec fn view(&self) -> DomainErrorView {
        match self {
            DomainError::InvalidMinLentgthTitle => DomainErrorView::InvalidMinLentgthTitle,
            DomainError::InvalidMaxLentgthTitle => DomainErrorView::InvalidMaxLentgthTitle,
            DomainError::EmptyContent => DomainErrorView::EmptyContent,
            DomainError::DatabaseError(s) => DomainErrorView::DatabaseError(s@),
            DomainError::NotFound => DomainErrorView::NotFound,
            DomainError::InvalidUserId => DomainErrorView::InvalidUserId,
            DomainError::PasswordHashingError(s) => DomainErrorView::PasswordHashingError(s@),
            DomainError::Unauthorized(s) => DomainErrorView::Unauthorized(s@),
            DomainError::InternalError => DomainErrorView::InternalError,
            DomainError::DuplicateEmail => DomainErrorView::DuplicateEmail,
        }
    }
}

impl DomainErrorView {
    /// The message of the error. The detail of a hashing failure is left
    /// out of it.
    pub open spec fn message(self) -> Seq<char> {
        match self {
            DomainErrorView::InvalidMinLentgthTitle =>
                "Un titre doit contenir au moins 3 caractères"@,
            DomainErrorView::InvalidMaxLentgthTitle =>
                "Un titre doit contenir au maximum 255 caractères"@,
            DomainErrorView::EmptyContent => "Le contenu en doit pas être vide"@,
            DomainErrorView::DatabaseError(detail) => "Erreur de base de données: "@ + detail,
            DomainErrorView::NotFound => "Ressource non trouvée"@,
            DomainErrorView::InvalidUserId => "L'ID de l'utilisateur est invalide"@,
            DomainErrorView::PasswordHashingError(_) => "Erreur de hachage de mot de passe"@,
            DomainErrorView::Unauthorized(message) => message,
            DomainErrorView::InternalError => "Internal server error"@,
            DomainErrorView::DuplicateEmail => "This email is already used"@,
        }
    }
}

impl DomainError {
    /// The message of the error.
    pub fn to_string(&self) -> (r: String)
        ensures
            r@ == self@.message(),
    {
        match self {
            DomainError::InvalidMinLentgthTitle =>
                "Un titre doit contenir au moins 3 caractères".to_owned(),
            DomainError::InvalidMaxLentgthTitle =>
                "Un titre doit contenir au maximum 255 caractères".to_owned(),
            DomainError::EmptyContent => "Le contenu en doit pas être vide".to_owned(),
            DomainError::DatabaseError(detail) => {
                let mut message = "Erreur de base de données: ".to_owned();
                message.append(detail.as_str());
                message
            },
            DomainError::NotFound => "Ressource non trouvée".to_owned(),
            DomainError::InvalidUserId => "L'ID de l'utilisateur est invalide".to_owned(),
            DomainError::PasswordHashingError(_) => "Erreur de hachage de mot de passe".to_owned(),
            DomainError::Unauthorized(message) => message.clone(),
            DomainError::InternalError => "Internal server error".to_owned(),
            DomainError::DuplicateEmail => "This email is already used".to_owned(),
        }
    }
}

} // verus!
