//! The HTTP statuses of the catalogue and the shape of a check's answer.
use vstd::prelude::*;

verus! {

/// The HTTP statuses that the catalogue answers with.
#[derive(Clone, Copy, Debug, PartialEq, Eq, Structural)]
pub enum HttpStatus {
    Okay,
    Created,
    BadRequest,
    NotFound,
    Conflict,
    InternalServerError,
}

/// The numeric code of a status.
pub open spec fn status_code(s: HttpStatus) -> u16 {
    match s {
        HttpStatus::Okay => 200,
        HttpStatus::Created => 201,
        HttpStatus::BadRequest => 400,
        HttpStatus::NotFound => 404,
        HttpStatus::Conflict => 409,
        HttpStatus::InternalServerError => 500,
    }
}

impl HttpStatus {
    /// The numeric code of this status.
    pub fn as_u16(&self) -> (r: u16)
        ensures
            r == status_code(*self),
    {
        match self {
            HttpStatus::Okay => 200,
            HttpStatus::Created => 201,
            HttpStatus::BadRequest => 400,
            HttpStatus::NotFound => 404,
            HttpStatus::Conflict => 409,
            HttpStatus::InternalServerError => 500,
        }
    }
}

/// A refused request: its status and the message shown to the caller.
pub type ApiError = (HttpStatus, String);

/// The view of a refusal: status and message characters.
pub open spec fn api_error_view(e: ApiError) -> (HttpStatus, Seq<char>) {
    (e.0, e.1@)
}

/// A bad request carrying `msg`.
pub fn bad_request(msg: &str) -> (r: ApiError)
    ensures
        r.0 == HttpStatus::BadRequest,
        r.1@ == msg@,
{
    (HttpStatus::BadRequest, msg.to_string())
}

} // verus!

verus! {

/// `r` is the answer of an API check whose expected refusal message is
/// `expected` (`None`: the input is accepted); refusals are bad requests.
pub open spec fn api_check_answers(r: Result<(), ApiError>, expected: Option<Seq<char>>) -> bool {
    match r {
        Ok(_) => expected is None,
        Err(e) => e.0 == HttpStatus::BadRequest && expected == Some(e.1@),
    }
}

/// `r` is the answer of a form check whose expected message is `expected`
/// (`None`: the input is accepted).
pub open spec fn form_check_answers(r: Result<(), String>, expected: Option<Seq<char>>) -> bool {
    match r {
        Ok(_) => expected is None,
        Err(m) => expected == Some(m@),
    }
}

} // verus!
