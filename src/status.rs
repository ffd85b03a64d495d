//! HTTP status codes and their reason phrases.
use vstd::prelude::*;

verus! {

/// An HTTP status code.
#[derive(Clone, Copy, Debug, PartialEq, Eq, Structural)]
pub struct Status {
    pub code: u16,
}

/// The standard reason phrase of a status code, if it has one.
pub uninterp spec fn reason_of(code: u16) -> Option<Seq<char>>;

/// Relies on `rocket::http::Status::reason`: a lookup of the code in a
/// constant table of standard reason phrases, which runs from 100 to 511 and
/// gives no phrase for a code it does not list.
#[verifier::external_body]
fn lookup_reason(code: u16) -> (r: Option<String>)
    ensures
        reason_of(code) == match r {
            Some(s) => Some(s@),
            None => None::<Seq<char>>,
        },
        code == 400 ==> r is Some && r->0@ == "Bad Request"@,
        code == 404 ==> r is Some && r->0@ == "Not Found"@,
        code == 500 ==> r is Some && r->0@ == "Internal Server Error"@,
        (code < 100 || code > 511) ==> r is None,
{
    rocket::http::Status::new(code).reason().map(String::from)
}

impl Status {
    pub fn new(code: u16) -> (s: Status)
        ensures
            s.code == code,
    {
        Status { code }
    }

    /// 200 OK.
    pub fn ok() -> (s: Status)
        ensures
            s.code == 200,
    {
        Status { code: 200 }
    }

    /// 400 Bad Request.
    pub fn bad_request() -> (s: Status)
        ensures
            s.code == 400,
    {
        Status { code: 400 }
    }

    /// 404 Not Found.
    pub fn not_found() -> (s: Status)
        ensures
            s.code == 404,
    {
        Status { code: 404 }
    }

    /// 500 Internal Server Error.
    pub fn internal_server_error() -> (s: Status)
        ensures
            s.code == 500,
    {
        Status { code: 500 }
    }

    /// The standard reason phrase of this status, if the code has one.
    pub fn reason(&self) -> (r: Option<String>)
        ensures
            reason_of(self.code) == match r {
                Some(s) => Some(s@),
                None => None::<Seq<char>>,
            },
            self.code == 400 ==> reason_of(self.code) == Some("Bad Request"@),
            self.code == 404 ==> reason_of(self.code) == Some("Not Found"@),
            self.code == 500 ==> reason_of(self.code) == Some("Internal Server Error"@),
            self.code < 100 || self.code > 511 ==> reason_of(self.code) is None,
    {
        lookup_reason(self.code)
    }
}

} // verus!
