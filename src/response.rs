//! Response envelopes returned by handlers, and the combinator that forwards
//! a failed backend call as an error response.
use vstd::prelude::*;
use crate::errors::{database_error_message, ApiError, ApiErrors, ApiErrorsCreate};
use crate::json::error_json;
use crate::status::Status;

verus! {

/// A successful response: a status and a payload sent as JSON.
#[derive(Debug)]
pub struct ApiResponse<T> {
    /// The payload sent to the client as the JSON body.
    pub json: T,
    /// The status sent to the client; it is not part of the body.
    pub status: Status,
}

impl<T> ApiResponse<T> {
    pub fn new(status: Status, json_data: T) -> (r: ApiResponse<T>)
        ensures
            r.status == status,
            r.json == json_data,
    {
        ApiResponse { status, json: json_data }
    }
}

/// A response that either succeeds with a payload or fails with an error.
#[derive(Debug)]
pub struct ApiResponseErr<T> {
    /// The payload, or the error to answer with.
    pub json: Result<T, ApiErrors>,
    /// The status sent to the client; when absent, the error's own status is used.
    pub status: Option<Status>,
}

/// The body of an error envelope, or `None` for a success.
pub open spec fn error_body_of<T>(json: Result<T, ApiErrors>) -> Option<Seq<char>> {
    match json {
        Ok(_) => None,
        Err(e) => Some(error_json(e.message_spec())),
    }
}

impl<T> ApiResponseErr<T> {
    /// The status the envelope is answered with: the one set on it, else the
    /// error's own status, else 500.
    pub open spec fn status_spec(&self) -> Status {
        match self.status {
            Some(s) => s,
            None => match self.json {
                Err(e) => e.status_spec(),
                Ok(_) => Status { code: 500 },
            },
        }
    }

    pub fn ok(status: Status, json_data: T) -> (r: ApiResponseErr<T>)
        ensures
            r.status == Some(status),
            r.json == Ok::<T, ApiErrors>(json_data),
    {
        ApiResponseErr { status: Some(status), json: Ok(json_data) }
    }

    /// An error of the handler's own, answered with `status` and `{"error": error}`.
    pub fn api_err(status: Status, error: String) -> (r: ApiResponseErr<T>)
        ensures
            r.status == Some(status),
            r.json == Err::<T, ApiErrors>(ApiErrors::ApiError(ApiError { status, error })),
    {
        ApiResponseErr {
            status: Some(status),
            json: Err(ApiErrors::ApiError(ApiError::new(status, error))),
        }
    }

    /// An error answered with the error's own status.
    pub fn err(error: ApiErrors) -> (r: ApiResponseErr<T>)
        ensures
            r.status is None,
            r.json == Err::<T, ApiErrors>(error),
    {
        ApiResponseErr { status: None, json: Err(error) }
    }

    /// The status the envelope is answered with.
    pub fn get_status(&self) -> (r: Status)
        ensures
            r == self.status_spec(),
    {
        match self.status {
            Some(s) => s,
            None => match &self.json {
                Err(e) => e.status(),
                Ok(_) => Status::internal_server_error(),
            },
        }
    }

    /// The JSON body of an error envelope, `None` for a success (whose
    /// payload is serialised by the caller).
    pub fn error_body(&self) -> (r: Option<String>)
        ensures
            error_body_of(self.json) == match r {
                Some(b) => Some(b@),
                None => None::<Seq<char>>,
            },
    {
        match &self.json {
            Ok(_) => None,
            Err(e) => {
                let rendered = e.render();
                Some(rendered.body)
            },
        }
    }

    /// Splits the envelope into the status to send and either the payload to
    /// serialise or the error body, already rendered. A success must carry
    /// its status: one without is a construction error of the handler.
    pub fn into_response(self) -> (r: (Status, Result<T, String>))
        requires
            self.json is Ok ==> self.status is Some,
        ensures
            r.0 == self.status_spec(),
            self.json matches Ok(v) ==> r.1 == Ok::<T, String>(v),
            self.json is Err ==> (r.1 matches Err(b) && Some(b@) == error_body_of(self.json)),
    {
        let status = self.get_status();
        match self.json {
            Ok(v) => (status, Ok(v)),
            Err(e) => {
                let rendered = e.render();
                (status, Err(rendered.body))
            },
        }
    }
}

/// The error response that a failed call is forwarded as.
pub open spec fn forwarded<T, E>(error: E) -> ApiResponseErr<T> where ApiErrors: ApiErrorsCreate<E> {
    ApiResponseErr { status: None, json: Err(<ApiErrors as ApiErrorsCreate<E>>::converted(error)) }
}

/// Forwarding combinator: the value of a successful call, or the error
/// response that the handler returns at once. Use as
/// `let v = match rjtry(call()) { Ok(v) => v, Err(resp) => return resp };`.
pub fn rjtry<V, E, T>(result: Result<V, E>) -> (r: Result<V, ApiResponseErr<T>>) where
    ApiErrors: ApiErrorsCreate<E>,

    ensures
        result matches Ok(v) ==> r == Ok::<V, ApiResponseErr<T>>(v),
        result matches Err(e) ==> r == Err::<V, ApiResponseErr<T>>(forwarded(e)),
{
    match result {
        Ok(v) => Ok(v),
        Err(e) => Err(ApiResponseErr::err(ApiErrors::to_rocketjson_error(e))),
    }
}

/// Two error values that render alike: same status, same shown message.
pub open spec fn render_alike<T>(a: Result<T, ApiErrors>, b: Result<T, ApiErrors>) -> bool {
    match (a, b) {
        (Ok(_), Ok(_)) => true,
        (Err(x), Err(y)) => x.status_spec() == y.status_spec() && x.message_spec()
            == y.message_spec(),
        _ => false,
    }
}

/// Rendering an envelope depends on nothing but its status and what its
/// error shows, so rendering the same envelope twice gives the same status
/// and byte-identical error body.
pub proof fn lemma_rendering_repeatable<T>(a: ApiResponseErr<T>, b: ApiResponseErr<T>)
    requires
        a.status == b.status,
        render_alike(a.json, b.json),
    ensures
        a.status_spec() == b.status_spec(),
        error_body_of(a.json) == error_body_of(b.json),
{
}

/// A failed diesel call forwarded by the combinator answers 500 with
/// `{"error": "Database error"}`, whatever the failure was.
pub proof fn lemma_diesel_error_forwarded<T>(error: diesel::result::Error)
    ensures
        forwarded::<T, diesel::result::Error>(error).status_spec().code == 500,
        error_body_of(forwarded::<T, diesel::result::Error>(error).json) == Some(
            error_json(database_error_message()),
        ),
{
}

/// A failed sqlx call forwarded by the combinator answers 500 with
/// `{"error": "Database error"}`, whatever the failure was.
pub proof fn lemma_sqlx_error_forwarded<T>(error: sqlx::Error)
    ensures
        forwarded::<T, sqlx::Error>(error).status_spec().code == 500,
        error_body_of(forwarded::<T, sqlx::Error>(error).json) == Some(
            error_json(database_error_message()),
        ),
{
}

} // verus!
