//! Taking a request body in: the decode gate, the validation gate and the
//! outcome that decides whether the handler runs.
use vstd::prelude::*;
use vstd::string::*;
use crate::errors::JsonBodyError;
use crate::slot::{after_set, ErrorSlot};
use crate::status::Status;
use crate::validation::{collected, detected_view, FieldViolation, ValidationErrorSet};

verus! {

/// The media type a request declares for its body, such as `application/json`.
#[derive(Debug)]
pub struct MediaType {
    pub top: String,
    pub sub: String,
}

pub open spec fn is_ascii_upper(c: char) -> bool {
    'A' <= c && c <= 'Z'
}

/// Two characters equal once ASCII letters are taken without case.
pub open spec fn char_eq_ignore_case(a: char, b: char) -> bool {
    ||| a == b
    ||| is_ascii_upper(a) && b as u32 == a as u32 + 32
    ||| is_ascii_upper(b) && a as u32 == b as u32 + 32
}

/// Two texts equal once ASCII letters are taken without case.
pub open spec fn eq_ignore_case(a: Seq<char>, b: Seq<char>) -> bool {
    &&& a.len() == b.len()
    &&& forall|i: int| 0 <= i < a.len() ==> char_eq_ignore_case(a[i], b[i])
}

pub open spec fn is_json_media(top: Seq<char>, sub: Seq<char>) -> bool {
    eq_ignore_case(top, "application"@) && eq_ignore_case(sub, "json"@)
}

/// Whether a request that declared `content_type` carries a JSON body.
pub open spec fn declares_json(content_type: Option<MediaType>) -> bool {
    match content_type {
        Some(m) => is_json_media(m.top@, m.sub@),
        None => false,
    }
}

fn chars_eq_ignore_case(a: char, b: char) -> (r: bool)
    ensures
        r == char_eq_ignore_case(a, b),
{
    let x = a as u32;
    let y = b as u32;
    x == y || ('A' <= a && a <= 'Z' && y == x + 32) || ('A' <= b && b <= 'Z' && x == y + 32)
}

/// Compares two texts, taking ASCII letters without case.
pub fn str_eq_ignore_case(a: &str, b: &str) -> (r: bool)
    ensures
        r == eq_ignore_case(a@, b@),
{
    let n = a.unicode_len();
    if n != b.unicode_len() {
        return false;
    }
    let mut i: usize = 0;
    while i < n
        invariant
            n == a@.len(),
            n == b@.len(),
            i <= n,
            forall|k: int| 0 <= k < i ==> char_eq_ignore_case(a@[k], b@[k]),
        decreases n - i,
    {
        if !chars_eq_ignore_case(a.get_char(i), b.get_char(i)) {
            return false;
        }
        i = i + 1;
    }
    true
}

impl MediaType {
    pub fn new(top: String, sub: String) -> (r: MediaType)
        ensures
            r.top == top,
            r.sub == sub,
    {
        MediaType { top, sub }
    }

    /// Whether this is `application/json`, letters taken without case and
    /// parameters ignored.
    pub fn is_json(&self) -> (r: bool)
        ensures
            r == is_json_media(self.top@, self.sub@),
    {
        str_eq_ignore_case(self.top.as_str(), "application") && str_eq_ignore_case(
            self.sub.as_str(),
            "json",
        )
    }
}

/// What taking a body in comes to.
#[derive(Debug)]
pub enum Outcome<T> {
    /// The body decoded and passed validation: the handler runs on it.
    Accepted(T),
    /// The body is not JSON: another handler of the route may take it.
    NotApplicable,
    /// The body was refused, for the reason given.
    Rejected(JsonBodyError),
}

/// Whether the validation rules need a context, and whether it is there.
#[derive(Clone, Copy, Debug, PartialEq, Eq, Structural)]
pub enum ContextState {
    NotNeeded,
    Available,
    Missing,
}

/// The validation rules need a context that the application never provided.
/// This is a fault of the application's setup, not of the request.
#[derive(Clone, Copy, Debug, PartialEq, Eq, Structural)]
pub struct MissingContext;

/// Decode gate. `decoded` is what the JSON decoder made of the body (`None`
/// when it could not decode it); it is not looked at unless the request
/// declared a JSON body.
pub fn decode_gate<T>(content_type: &Option<MediaType>, decoded: Option<T>) -> (r: Outcome<T>)
    ensures
        !declares_json(*content_type) ==> r is NotApplicable,
        declares_json(*content_type) && decoded is None ==> r matches Outcome::Rejected(
            JsonBodyError::JsonValidationError,
        ),
        declares_json(*content_type) && decoded is Some ==> r == Outcome::Accepted(decoded->0),
{
    let json = match content_type {
        Some(m) => m.is_json(),
        None => false,
    };
    if !json {
        return Outcome::NotApplicable;
    }
    match decoded {
        Some(v) => Outcome::Accepted(v),
        None => Outcome::Rejected(JsonBodyError::JsonValidationError),
    }
}

/// Validation gate. `detected` holds every violation that the rules found on
/// `candidate`, with its field, in detection order: the candidate passes when
/// there is none, and is refused with all of them, grouped by field, otherwise.
pub fn validation_gate<T>(candidate: T, detected: Vec<(String, FieldViolation)>) -> (r: Result<
    T,
    ValidationErrorSet,
>)
    ensures
        detected@.len() == 0 ==> r == Ok::<T, ValidationErrorSet>(candidate),
        detected@.len() > 0 ==> (r matches Err(set) && set@ == collected(
            detected_view(detected@),
        )),
{
    if detected.len() == 0 {
        Ok(candidate)
    } else {
        Err(ValidationErrorSet::collect(detected))
    }
}

/// Decode gate then validation gate, in one pass. A rule context that is
/// needed and missing is a fault of the setup and comes back as `Err`.
pub fn ingest<T>(
    content_type: &Option<MediaType>,
    decoded: Option<T>,
    context: ContextState,
    detected: Vec<(String, FieldViolation)>,
) -> (r: Result<Outcome<T>, MissingContext>)
    ensures
        !declares_json(*content_type) ==> r == Ok::<Outcome<T>, MissingContext>(
            Outcome::NotApplicable,
        ),
        declares_json(*content_type) && decoded is None ==> r matches Ok(
            Outcome::Rejected(JsonBodyError::JsonValidationError),
        ),
        declares_json(*content_type) && decoded is Some && context == ContextState::Missing ==> r
            == Err::<Outcome<T>, MissingContext>(MissingContext),
        declares_json(*content_type) && decoded is Some && context != ContextState::Missing
            && detected@.len() == 0 ==> r == Ok::<Outcome<T>, MissingContext>(
            Outcome::Accepted(decoded->0),
        ),
        declares_json(*content_type) && decoded is Some && context != ContextState::Missing
            && detected@.len() > 0 ==> (r matches Ok(
            Outcome::Rejected(JsonBodyError::ValidationError(set)),
        ) && set@ == collected(detected_view(detected@))),
{
    match decode_gate(content_type, decoded) {
        Outcome::Accepted(candidate) => {
            if context == ContextState::Missing {
                return Err(MissingContext);
            }
            match validation_gate(candidate, detected) {
                Ok(v) => Ok(Outcome::Accepted(v)),
                Err(set) => Ok(Outcome::Rejected(JsonBodyError::ValidationError(set))),
            }
        },
        Outcome::NotApplicable => Ok(Outcome::NotApplicable),
        Outcome::Rejected(e) => Ok(Outcome::Rejected(e)),
    }
}

/// What the web framework is told once the body was taken in.
#[derive(Debug)]
pub enum Disposition<T> {
    /// Run the handler on the value.
    Success(T),
    /// Let another handler of the route try.
    Forward,
    /// Stop and answer with this status; the reason is in the error slot.
    Error(Status),
}

/// Hands an outcome to the web framework: a rejection is recorded in the
/// request's error slot and answered with 400.
pub fn settle<T>(outcome: Outcome<T>, slot: &mut ErrorSlot) -> (r: Disposition<T>)
    ensures
        outcome matches Outcome::Accepted(v) ==> r == Disposition::Success(v)
            && final(slot).content() == old(slot).content(),
        outcome is NotApplicable ==> r is Forward && final(slot).content() == old(
            slot,
        ).content(),
        outcome matches Outcome::Rejected(e) ==> r == Disposition::<T>::Error(
            Status { code: 400 },
        ) && final(slot).content() == after_set(old(slot).content(), e),
{
    match outcome {
        Outcome::Accepted(v) => Disposition::Success(v),
        Outcome::NotApplicable => Disposition::Forward,
        Outcome::Rejected(e) => {
            slot.set(e);
            Disposition::Error(Status::bad_request())
        },
    }
}

} // verus!
