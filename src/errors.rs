//! The errors a handler can answer with, and the errors recorded while a
//! request body is taken in.
use vstd::prelude::*;
use crate::json::{error_body, error_json, Rendered};
use crate::status::Status;
use crate::validation::ValidationErrorSet;

verus! {

/// Declares diesel's `diesel::result::Error`, carried opaquely inside
/// [`ApiErrors::DieselError`]; nothing is assumed of its content.
#[verifier::external_type_specification]
#[verifier::external_body]
pub struct ExDieselError(diesel::result::Error);

/// Declares sqlx's `sqlx::Error`, carried opaquely inside
/// [`ApiErrors::SqlxError`]; nothing is assumed of its content.
#[verifier::external_type_specification]
#[verifier::external_body]
pub struct ExSqlxError(sqlx::Error);

/// An error stated by the handler itself: the status to answer with and the
/// message to show.
#[derive(Debug)]
pub struct ApiError {
    pub status: Status,
    pub error: String,
}

impl ApiError {
    pub fn new(status: Status, error: String) -> (r: ApiError)
        ensures
            r.status == status,
            r.error == error,
    {
        ApiError { status, error }
    }
}

/// Every error a handler can answer with: its own, or one of a storage
/// backend, whose text is never shown to the client.
#[derive(Debug)]
pub enum ApiErrors {
    ApiError(ApiError),
    DieselError(diesel::result::Error),
    SqlxError(sqlx::Error),
}

/// The message shown for every storage backend failure.
pub open spec fn database_error_message() -> Seq<char> {
    "Database error"@
}

impl ApiErrors {
    /// The status this error answers with by itself.
    pub open spec fn status_spec(&self) -> Status {
        match self {
            ApiErrors::ApiError(e) => e.status,
            _ => Status { code: 500 },
        }
    }

    /// The message shown to the client.
    pub open spec fn message_spec(&self) -> Seq<char> {
        match self {
            ApiErrors::ApiError(e) => e.error@,
            _ => database_error_message(),
        }
    }

    /// The status this error answers with by itself: a handler's own status,
    /// or 500 for a storage backend failure.
    pub fn status(&self) -> (r: Status)
        ensures
            r == self.status_spec(),
    {
        match self {
            ApiErrors::ApiError(e) => e.status,
            _ => Status::internal_server_error(),
        }
    }

    /// Renders `{"error": message}` at this error's own status.
    pub fn render(&self) -> (r: Rendered)
        ensures
            r.status == self.status_spec(),
            r.body@ == error_json(self.message_spec()),
    {
        match self {
            ApiErrors::ApiError(e) => Rendered { status: e.status, body: error_body(e.error.as_str()) },
            _ => Rendered { status: Status::internal_server_error(), body: error_body("Database error") },
        }
    }
}

/// Turns an error of some other type into an [`ApiErrors`]. Supporting one
/// more backend takes one more impl of this trait.
pub trait ApiErrorsCreate<TIN>: Sized {
    /// The error that `error` becomes.
    spec fn converted(error: TIN) -> Self;

    fn to_rocketjson_error(error: TIN) -> (r: Self)
        ensures
            r == Self::converted(error),
    ;
}

impl ApiErrorsCreate<diesel::result::Error> for ApiErrors {
    open spec fn converted(error: diesel::result::Error) -> ApiErrors {
        ApiErrors::DieselError(error)
    }

    fn to_rocketjson_error(error: diesel::result::Error) -> (r: ApiErrors) {
        ApiErrors::DieselError(error)
    }
}

impl ApiErrorsCreate<sqlx::Error> for ApiErrors {
    open spec fn converted(error: sqlx::Error) -> ApiErrors {
        ApiErrors::SqlxError(error)
    }

    fn to_rocketjson_error(error: sqlx::Error) -> (r: ApiErrors) {
        ApiErrors::SqlxError(error)
    }
}

impl ApiErrorsCreate<ApiError> for ApiErrors {
    open spec fn converted(error: ApiError) -> ApiErrors {
        ApiErrors::ApiError(error)
    }

    fn to_rocketjson_error(error: ApiError) -> (r: ApiErrors) {
        ApiErrors::ApiError(error)
    }
}

/// What went wrong while a request body was taken in. At most one is kept
/// per request (see [`crate::slot::ErrorSlot`]); `NoError` marks that none
/// was recorded.
#[derive(Debug)]
pub enum JsonBodyError {
    NoError,
    /// Set by a request guard of the application, shown as `{"error": message}`.
    CustomError(String),
    /// The body is not JSON of the expected shape.
    JsonValidationError,
    /// The body decoded but broke validation rules.
    ValidationError(ValidationErrorSet),
}

} // verus!
