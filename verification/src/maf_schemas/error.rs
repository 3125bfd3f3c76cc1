//! API error responses: an HTTP status and a message.

use vstd::prelude::*;
use crate::text::to_owned_string;

verus! {

/// The HTTP statuses that API errors are answered with.
#[derive(Debug, Clone, Copy, PartialEq, Eq, Structural)]
pub enum ErrorStatus {
    Unauthorized,
    Forbidden,
    NotFound,
    BadRequest,
    InternalServerError,
    Conflict,
    BadGateway,
}

/// The numeric HTTP status code of `status`.
pub open spec fn status_code_number(status: ErrorStatus) -> u16 {
    match status {
        ErrorStatus::Unauthorized => 401,
        ErrorStatus::Forbidden => 403,
        ErrorStatus::NotFound => 404,
        ErrorStatus::BadRequest => 400,
        ErrorStatus::InternalServerError => 500,
        ErrorStatus::Conflict => 409,
        ErrorStatus::BadGateway => 502,
    }
}

impl ErrorStatus {
    /// The numeric HTTP status code.
    pub fn code(&self) -> (code: u16)
        ensures
            code == status_code_number(*self),
    {
        match self {
            ErrorStatus::Unauthorized => 401,
            ErrorStatus::Forbidden => 403,
            ErrorStatus::NotFound => 404,
            ErrorStatus::BadRequest => 400,
            ErrorStatus::InternalServerError => 500,
            ErrorStatus::Conflict => 409,
            ErrorStatus::BadGateway => 502,
        }
    }
}

/// An API error: the status it is answered with and a message for the client.
#[derive(Debug)]
pub struct ErrorResponse {
    status_code: ErrorStatus,
    message: String,
}

/// The message of an error response: the given message, or the default one.
pub open spec fn message_or(message: Option<Seq<char>>, default: Seq<char>) -> Seq<char> {
    match message {
        Some(m) => m,
        None => default,
    }
}

/// The view of an optional message.
pub open spec fn opt_view(message: Option<&str>) -> Option<Seq<char>> {
    match message {
        Some(m) => Some(m@),
        None => None,
    }
}

impl ErrorResponse {
    /// The status of the response.
    pub closed spec fn status(&self) -> ErrorStatus {
        self.status_code
    }

    /// The message of the response.
    pub closed spec fn text(&self) -> Seq<char> {
        self.message@
    }

    /// Whether this response has the given status and message.
    pub open spec fn is(&self, status: ErrorStatus, text: Seq<char>) -> bool {
        self.status() == status && self.text() == text
    }

    fn with_status(status: ErrorStatus, message: Option<&str>, default: &str) -> (r: Self)
        ensures
            r.is(status, message_or(opt_view(message), default@)),
    {
        let text = match message {
            Some(m) => to_owned_string(m),
            None => to_owned_string(default),
        };
        ErrorResponse { status_code: status, message: text }
    }

    /// 401, with the message or "Unauthorized".
    pub fn unauthorized(message: Option<&str>) -> (r: Self)
        ensures
            r.is(ErrorStatus::Unauthorized, message_or(opt_view(message), "Unauthorized"@)),
    {
        Self::with_status(ErrorStatus::Unauthorized, message, "Unauthorized")
    }

    /// 403, with the message or "Forbidden".
    pub fn forbidden(message: Option<&str>) -> (r: Self)
        ensures
            r.is(ErrorStatus::Forbidden, message_or(opt_view(message), "Forbidden"@)),
    {
        Self::with_status(ErrorStatus::Forbidden, message, "Forbidden")
    }

    /// 404, with the message or "Not Found".
    pub fn not_found(message: Option<&str>) -> (r: Self)
        ensures
            r.is(ErrorStatus::NotFound, message_or(opt_view(message), "Not Found"@)),
    {
        Self::with_status(ErrorStatus::NotFound, message, "Not Found")
    }

    /// 400, with the message or "Bad Request".
    pub fn bad_request(message: Option<&str>) -> (r: Self)
        ensures
            r.is(ErrorStatus::BadRequest, message_or(opt_view(message), "Bad Request"@)),
    {
        Self::with_status(ErrorStatus::BadRequest, message, "Bad Request")
    }

    /// 500, with the message or "Internal Server Error".
    pub fn internal_server_error(message: Option<&str>) -> (r: Self)
        ensures
            r.is(
                ErrorStatus::InternalServerError,
                message_or(opt_view(message), "Internal Server Error"@),
            ),
    {
        Self::with_status(ErrorStatus::InternalServerError, message, "Internal Server Error")
    }

    /// 409, with the message or "Conflict".
    pub fn conflict(message: Option<&str>) -> (r: Self)
        ensures
            r.is(ErrorStatus::Conflict, message_or(opt_view(message), "Conflict"@)),
    {
        Self::with_status(ErrorStatus::Conflict, message, "Conflict")
    }

    /// 502, with the message or "Bad Gateway".
    pub fn bad_gateway(message: Option<&str>) -> (r: Self)
        ensures
            r.is(ErrorStatus::BadGateway, message_or(opt_view(message), "Bad Gateway"@)),
    {
        Self::with_status(ErrorStatus::BadGateway, message, "Bad Gateway")
    }

    /// The status the response is answered with.
    pub fn status_code(&self) -> (status: ErrorStatus)
        ensures
            status == self.status(),
    {
        self.status_code
    }

    /// The message for the client.
    pub fn message(&self) -> (message: &str)
        ensures
            message@ == self.text(),
    {
        self.message.as_str()
    }
}

} // verus!
