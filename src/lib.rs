//! Validated JSON request bodies and uniform JSON error responses.
//!
//! Request bodies go through a decode gate and a validation gate; a rejection
//! is recorded in a per-request error slot that a catch-all renderer reads to
//! build the JSON body of the final response. Handlers answer with response
//! envelopes whose errors render to the same JSON shape.
pub mod bad_request;
pub mod error_handling;
pub mod errors;
pub mod ingest;
pub mod json;
pub mod response;
pub mod slot;
pub mod status;
pub mod validation;

pub use errors::{ApiError, ApiErrors, ApiErrorsCreate, JsonBodyError};
pub use response::{rjtry, ApiResponse, ApiResponseErr};
