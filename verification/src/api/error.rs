//! Classification of backend responses: which HTTP status codes succeed,
//! which error each failing status maps to, and the message shown for each
//! error.

use vstd::prelude::*;

use crate::numeric::spec_dec;
use crate::numeric::format_u32;

verus! {

/// The error payload the backend sends with 400 and 401 responses.
#[derive(Debug, Clone, PartialEq)]
pub struct Details {
    pub code: String,
    pub description: Option<String>,
}

/// What a request can fail with, as shown to the user. A status code the
/// backend is not expected to send is carried in `UnknownError`.
#[derive(Debug, Clone, PartialEq)]
pub enum APIError {
    BadRequest(Details),
    Unauthorized(Details),
    Forbidden,
    NotFound,
    InternalServerError,
    UnknownError(u16),
    DeserializeError,
    RequestError,
}

/// HTTP's definition of a successful status: the 2xx class.
pub open spec fn spec_status_success(status: u16) -> bool {
    200 <= status < 300
}

pub fn status_is_success(status: u16) -> (r: bool)
    ensures
        r == spec_status_success(status),
{
    200 <= status && status < 300
}

/// The error for a failing status, given the `Details` payload if the body
/// held one.
pub open spec fn spec_classify_failure(status: u16, details: Option<Details>) -> APIError {
    if status == 400 && details is Some {
        APIError::BadRequest(details->0)
    } else if status == 401 && details is Some {
        APIError::Unauthorized(details->0)
    } else if status == 403 {
        APIError::Forbidden
    } else if status == 404 {
        APIError::NotFound
    } else if status == 500 {
        APIError::InternalServerError
    } else {
        APIError::UnknownError(status)
    }
}

pub fn classify_failure(status: u16, details: Option<Details>) -> (e: APIError)
    ensures
        e == spec_classify_failure(status, details),
{
    match (status, details) {
        (400, Some(d)) => APIError::BadRequest(d),
        (401, Some(d)) => APIError::Unauthorized(d),
        (403, _) => APIError::Forbidden,
        (404, _) => APIError::NotFound,
        (500, _) => APIError::InternalServerError,
        (s, _) => APIError::UnknownError(s),
    }
}

/// What came back for one request, after the transport and the two optimistic
/// body parses. `parsed` is the body read as the expected response type;
/// `details` is the body read as an error payload. Which of the two counts is
/// decided here, not by the caller.
pub enum ResponseOutcome<T> {
    /// The request itself failed: no response arrived.
    Failed,
    /// A response arrived but its body was not UTF-8 text.
    NotUtf8,
    /// A response arrived with a text body.
    Body { status: u16, parsed: Option<T>, details: Option<Details> },
}

/// The result handed to a page for one response.
pub open spec fn spec_resolve<T>(outcome: ResponseOutcome<T>) -> Result<T, APIError> {
    match outcome {
        ResponseOutcome::Failed => Err(APIError::RequestError),
        ResponseOutcome::NotUtf8 => Err(APIError::DeserializeError),
        ResponseOutcome::Body { status, parsed, details } => {
            if spec_status_success(status) {
                match parsed {
                    Some(v) => Ok(v),
                    None => Err(APIError::DeserializeError),
                }
            } else {
                Err(spec_classify_failure(status, details))
            }
        },
    }
}

/// Turn a response into the page-level result: a 2xx body must parse as the
/// expected type, any other status is mapped to its error.
pub fn resolve<T>(outcome: ResponseOutcome<T>) -> (r: Result<T, APIError>)
    ensures
        r == spec_resolve(outcome),
{
    match outcome {
        ResponseOutcome::Failed => Err(APIError::RequestError),
        ResponseOutcome::NotUtf8 => Err(APIError::DeserializeError),
        ResponseOutcome::Body { status, parsed, details } => {
            if status_is_success(status) {
                match parsed {
                    Some(v) => Ok(v),
                    None => Err(APIError::DeserializeError),
                }
            } else {
                Err(classify_failure(status, details))
            }
        },
    }
}

/// The message shown for each error.
pub open spec fn spec_error_message(e: APIError) -> Seq<char> {
    match e {
        APIError::BadRequest(d) => match d.description {
            Some(s) => s@,
            None => ""@,
        },
        APIError::Unauthorized(d) => {
            if d.code@ == "INCORRECT_CREDENTIALS"@ {
                "Incorrect credentials"@
            } else if d.code@ == "MISSING_CREDENTIALS"@ {
                "Request missing username or password"@
            } else {
                "Unauthorized"@
            }
        },
        APIError::Forbidden => "Forbidden"@,
        APIError::NotFound => "Resource not found"@,
        APIError::InternalServerError => "Internal server error"@,
        APIError::UnknownError(c) => "Unknown Error (HTTP "@ + spec_dec(c as nat) + ")"@,
        APIError::DeserializeError => "Could not parse server response"@,
        APIError::RequestError => "Request failed, please check your connection"@,
    }
}

fn code_equals(code: &String, expected: &str) -> (r: bool)
    ensures
        r == (code@ == expected@),
{
    *code == expected.to_owned()
}

impl APIError {
    /// The message shown to the user for this error.
    pub fn message(&self) -> (r: String)
        ensures
            r@ == spec_error_message(*self),
    {
        match self {
            APIError::BadRequest(d) => match &d.description {
                Some(s) => s.clone(),
                None => String::from_str(""),
            },
            APIError::Unauthorized(d) => {
                if code_equals(&d.code, "INCORRECT_CREDENTIALS") {
                    String::from_str("Incorrect credentials")
                } else if code_equals(&d.code, "MISSING_CREDENTIALS") {
                    String::from_str("Request missing username or password")
                } else {
                    String::from_str("Unauthorized")
                }
            },
            APIError::Forbidden => String::from_str("Forbidden"),
            APIError::NotFound => String::from_str("Resource not found"),
            APIError::InternalServerError => String::from_str("Internal server error"),
            APIError::UnknownError(c) => {
                let mut s = String::from_str("Unknown Error (HTTP ");
                s.append(format_u32(*c as u32).as_str());
                s.append(")");
                proof {
                    assert(s@ =~= "Unknown Error (HTTP "@ + spec_dec(*c as nat) + ")"@);
                }
                s
            },
            APIError::DeserializeError => String::from_str("Could not parse server response"),
            APIError::RequestError => String::from_str(
                "Request failed, please check your connection",
            ),
        }
    }
}

} // verus!
