//! A catcher for 400 responses that shows validation failures, or the
//! generic `{"error": "Bad Request"}` when none was recorded.
use vstd::prelude::*;
use vstd::string::*;
use crate::errors::JsonBodyError;
use crate::json::{error_body, error_json, Rendered};
use crate::slot::ErrorSlot;
use crate::status::Status;
use crate::validation::{entries_json, ValidationErrorSet};

verus! {

/// A generic failure message, sent in the uniform error shape
/// `{"error": message}`.
#[derive(Debug)]
pub struct DefaultError {
    pub message: String,
}

impl DefaultError {
    pub fn new(message: String) -> (r: DefaultError)
        ensures
            r.message == message,
    {
        DefaultError { message }
    }

    /// Renders `{"error": message}`.
    pub fn to_json(&self) -> (r: String)
        ensures
            r@ == error_json(self.message@),
    {
        error_body(self.message.as_str())
    }
}

/// The body of a 400 response.
#[derive(Debug)]
pub enum BadRequestError {
    DefaultError(DefaultError),
    ValidationErrors(ValidationErrorSet),
}

impl BadRequestError {
    /// Renders the body at 400.
    pub fn render(&self) -> (r: Rendered)
        ensures
            r.status.code == 400,
            r.body@ == match self {
                BadRequestError::DefaultError(d) => error_json(d.message@),
                BadRequestError::ValidationErrors(set) => entries_json(set@),
            },
    {
        let body = match self {
            BadRequestError::DefaultError(d) => d.to_json(),
            BadRequestError::ValidationErrors(set) => set.to_json(),
        };
        Rendered { status: Status::bad_request(), body }
    }
}

/// Chooses the body of a 400 response from the validation failures recorded
/// for the request: those failures when there are any, `Bad Request` otherwise.
pub fn bad_request_catcher(recorded: ValidationErrorSet) -> (r: BadRequestError)
    ensures
        recorded@.len() == 0 ==> (r matches BadRequestError::DefaultError(d) && d.message@
            == "Bad Request"@),
        recorded@.len() > 0 ==> r == BadRequestError::ValidationErrors(recorded),
{
    if recorded.is_empty() {
        BadRequestError::DefaultError(DefaultError::new(String::from_str("Bad Request")))
    } else {
        BadRequestError::ValidationErrors(recorded)
    }
}

/// The body of a 400 response for a request whose error slot holds `recorded`.
pub open spec fn bad_request_body(recorded: JsonBodyError) -> Seq<char> {
    match recorded {
        JsonBodyError::ValidationError(set) => if set@.len() > 0 {
            entries_json(set@)
        } else {
            error_json("Bad Request"@)
        },
        _ => error_json("Bad Request"@),
    }
}

/// Renders the 400 response for a request: its validation failures when the
/// error slot holds some, `{"error": "Bad Request"}` otherwise.
pub fn render_bad_request(slot: &ErrorSlot) -> (r: Rendered)
    ensures
        r.status.code == 400,
        r.body@ == bad_request_body(slot.content()),
{
    let body = match slot.get() {
        JsonBodyError::ValidationError(set) => if set.is_empty() {
            DefaultError::new(String::from_str("Bad Request")).to_json()
        } else {
            set.to_json()
        },
        _ => DefaultError::new(String::from_str("Bad Request")).to_json(),
    };
    Rendered { status: Status::bad_request(), body }
}

} // verus!
