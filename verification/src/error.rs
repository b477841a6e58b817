//! The error taxonomy of the service and its mapping to HTTP statuses.

use vstd::prelude::*;

verus! {

/// The error that `bcrypt` reports for a hash it cannot work with.
#[verifier::external_type_specification]
#[verifier::external_body]
pub struct ExBcryptError(bcrypt::BcryptError);

/// Why a request failed.
#[derive(Debug)]
pub enum AppError {
    /// The data layer failed; the text is its report.
    DatabaseError(String),
    /// No valid credentials, or a principal who does not own what it asks for.
    AuthenticationError(String),
    /// A malformed path or body.
    ValidationError(String),
    /// No calendar or event with the identifier asked for.
    NotFoundError(String),
    /// A fault of the server itself.
    InternalServerError(String),
    /// A password could not be hashed, or a stored hash could not be read.
    PasswordHashError(bcrypt::BcryptError),
    /// A token could not be made or read; the text is the report.
    JwtError(String),
    /// A path segment that should name a calendar or an event is no identifier.
    UuidError(uuid::Error),
}

/// What an `AppError` holds, as mathematical values. The detail of an
/// identifier-format error and of a password hashing error is not part of
/// the view.
pub enum ErrorView {
    Database(Seq<char>),
    Authentication(Seq<char>),
    Validation(Seq<char>),
    NotFound(Seq<char>),
    Internal(Seq<char>),
    PasswordHash,
    Jwt(Seq<char>),
    Uuid,
}

impl View for AppError {
    type V = ErrorView;

    open spec fn view(&self) -> ErrorView {
        match self {
            AppError::DatabaseError(m) => ErrorView::Database(m@),
            AppError::AuthenticationError(m) => ErrorView::Authentication(m@),
            AppError::ValidationError(m) => ErrorView::Validation(m@),
            AppError::NotFoundError(m) => ErrorView::NotFound(m@),
            AppError::InternalServerError(m) => ErrorView::Internal(m@),
            AppError::PasswordHashError(_) => ErrorView::PasswordHash,
            AppError::JwtError(m) => ErrorView::Jwt(m@),
            AppError::UuidError(_) => ErrorView::Uuid,
        }
    }
}

impl DeepView for AppError {
    type V = ErrorView;

    open spec fn deep_view(&self) -> ErrorView {
        self@
    }
}

/// The HTTP status that reports an error of the given kind.
pub open spec fn status_of(e: ErrorView) -> u16 {
    match e {
        ErrorView::Database(_) => 500,
        ErrorView::Authentication(_) => 401,
        ErrorView::Validation(_) => 400,
        ErrorView::NotFound(_) => 404,
        ErrorView::Internal(_) => 500,
        ErrorView::PasswordHash => 500,
        ErrorView::Jwt(_) => 401,
        ErrorView::Uuid => 400,
    }
}

/// The short public message that reports an error of the given kind.
pub open spec fn message_of(e: ErrorView) -> Seq<char> {
    match e {
        ErrorView::Database(_) => "Database error"@,
        ErrorView::Authentication(_) => "Authentication error"@,
        ErrorView::Validation(_) => "Validation error"@,
        ErrorView::NotFound(_) => "Not found"@,
        ErrorView::Internal(_) => "Internal server error"@,
        ErrorView::PasswordHash => "Password hashing error"@,
        ErrorView::Jwt(_) => "JWT error"@,
        ErrorView::Uuid => "Invalid UUID"@,
    }
}

impl AppError {
    /// The HTTP status with which the transport layer answers.
    pub fn status_code(&self) -> (status: u16)
        ensures
            status == status_of(self@),
            400 <= status < 600,
    {
        match self {
            AppError::DatabaseError(_) => 500,
            AppError::AuthenticationError(_) => 401,
            AppError::ValidationError(_) => 400,
            AppError::NotFoundError(_) => 404,
            AppError::InternalServerError(_) => 500,
            AppError::PasswordHashError(_) => 500,
            AppError::JwtError(_) => 401,
            AppError::UuidError(_) => 400,
        }
    }

    /// The short public message of the response body. It names the kind of
    /// error and never the detail.
    pub fn message(&self) -> (text: &'static str)
        ensures
            text@ == message_of(self@),
    {
        match self {
            AppError::DatabaseError(_) => "Database error",
            AppError::AuthenticationError(_) => "Authentication error",
            AppError::ValidationError(_) => "Validation error",
            AppError::NotFoundError(_) => "Not found",
            AppError::InternalServerError(_) => "Internal server error",
            AppError::PasswordHashError(_) => "Password hashing error",
            AppError::JwtError(_) => "JWT error",
            AppError::UuidError(_) => "Invalid UUID",
        }
    }
}

} // verus!
