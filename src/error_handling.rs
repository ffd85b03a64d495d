//! The catch-all renderer: the JSON body of every response that did not come
//! from a handler.
use vstd::prelude::*;
use vstd::string::*;
use crate::errors::JsonBodyError;
use crate::json::{decimal, error_body, error_json, push_decimal, Rendered};
use crate::slot::{after_set, ErrorSlot};
use crate::status::{reason_of, Status};
use crate::validation::entries_json;

verus! {

/// The body `{"error": ..}` of a terminal failure.
#[derive(Debug)]
pub struct DefaultError {
    pub error: String,
}

impl DefaultError {
    pub fn new(error: String) -> (r: DefaultError)
        ensures
            r.error == error,
    {
        DefaultError { error }
    }

    /// Renders `{"error": ..}`.
    pub fn to_json(&self) -> (r: String)
        ensures
            r@ == error_json(self.error@),
    {
        error_body(self.error.as_str())
    }
}

/// The message shown when the body could not be decoded.
pub open spec fn parsing_failed_message() -> Seq<char> {
    "Parsing JSON failed"@
}

/// The message for a status when nothing was recorded: its reason phrase, or
/// `Unknown error: <code>` for a code without one.
pub open spec fn fallback_message(status: Status) -> Seq<char> {
    match reason_of(status.code) {
        Some(reason) => reason,
        None => "Unknown error: "@ + decimal(status.code as nat),
    }
}

/// The status the catch-all answers with.
pub open spec fn caught_status(status: Status, recorded: JsonBodyError) -> Status {
    match recorded {
        JsonBodyError::ValidationError(_) => Status { code: 400 },
        _ => status,
    }
}

/// The body the catch-all answers with.
pub open spec fn caught_body(status: Status, recorded: JsonBodyError) -> Seq<char> {
    match recorded {
        JsonBodyError::NoError => error_json(fallback_message(status)),
        JsonBodyError::CustomError(message) => error_json(message@),
        JsonBodyError::JsonValidationError => error_json(parsing_failed_message()),
        JsonBodyError::ValidationError(set) => entries_json(set@),
    }
}

/// Catch-all renderer: turns a terminal `status` and what the request's error
/// slot holds into a JSON response. Validation failures are shown field by
/// field at 400; every other case is `{"error": message}` at `status`.
pub fn request_catcher(status: Status, slot: &ErrorSlot) -> (r: Rendered)
    ensures
        r.status == caught_status(status, slot.content()),
        r.body@ == caught_body(status, slot.content()),
{
    match slot.get() {
        JsonBodyError::NoError => {
            let message = match status.reason() {
                Some(reason) => reason,
                None => {
                    let mut m = String::new();
                    m.append("Unknown error: ");
                    push_decimal(&mut m, status.code as u64);
                    m
                },
            };
            Rendered { status, body: DefaultError::new(message).to_json() }
        },
        JsonBodyError::CustomError(message) => Rendered {
            status,
            body: error_body(message.as_str()),
        },
        JsonBodyError::JsonValidationError => Rendered {
            status,
            body: error_body("Parsing JSON failed"),
        },
        JsonBodyError::ValidationError(set) => Rendered {
            status: Status::bad_request(),
            body: set.to_json(),
        },
    }
}

/// A body that could not be decoded ends, on a request whose slot held no
/// error, in `{"error": "Parsing JSON failed"}` at 400: the rejection is
/// recorded in the slot, the framework is told 400, and the catch-all renders
/// that.
pub proof fn lemma_malformed_body_response(recorded_before: JsonBodyError)
    requires
        recorded_before is NoError,
    ensures
        ({
            let recorded = after_set(recorded_before, JsonBodyError::JsonValidationError);
            &&& caught_status(Status { code: 400 }, recorded) == Status { code: 400 }
            &&& caught_body(Status { code: 400 }, recorded) == error_json(
                parsing_failed_message(),
            )
        }),
{
}

} // verus!
